//! The terminal progress indicator's state machine.
//!
//! An indicator is an animated one-line display owned by a background
//! rendering task while no streamed output is being printed. The
//! foreground drives it through a small command protocol — continue with
//! a message, pause, stop — and the machine here decides, for every
//! command and animation tick, what the rendering task must do: which
//! line to draw, when to clear the line and show the cursor again, when
//! to acknowledge the foreground, and when to exit.
//!
//! The one correctness-critical property is that the terminal line is
//! clean whenever the indicator is not running, so a foreground print
//! can never interleave with a half-drawn spinner frame; see
//! [`lemma_screen_clean_unless_running`].

use vstd::prelude::*;
use vstd::string::StringExecFns;

verus! {

/// The indicator's lifecycle. `Stopped` is terminal: an indicator is
/// never reused after it.
#[derive(Copy, Clone, Debug, PartialEq, Eq, Structural)]
pub enum IndicatorPhase {
    /// Created but not yet started; nothing has been drawn.
    Idle,
    /// The animation is drawing frames.
    Running,
    /// The line is cleared and the cursor shown; the foreground owns the
    /// terminal until a continue command hands it back.
    Paused,
    /// The indicator has shut down for good.
    Stopped,
}

/// A command the foreground sends to the rendering task. Exactly one is
/// in flight at a time.
#[derive(Debug, Clone, PartialEq, Eq)]
pub enum SpinnerCommand {
    /// Resume the animation, replacing the display message.
    Continue(String),
    /// Clear the line, show the cursor, then acknowledge, so the
    /// foreground may print.
    Pause,
    /// Clear the line if needed, acknowledge, and exit the rendering
    /// task.
    Stop,
}

/// One input the rendering task reacts to: an animation tick or a
/// command.
#[derive(Copy, Clone, Debug, PartialEq, Eq, Structural)]
pub enum SpinnerInput {
    /// A 50 ms animation tick.
    Tick,
    /// A pause command arrived.
    DoPause,
    /// A stop command arrived.
    DoStop,
    /// A continue command arrived.
    DoContinue,
}

/// The phase machine: for a phase and an input, the next phase, whether
/// this step draws a frame, and whether it clears the line (showing the
/// cursor again).
///
/// A tick draws only while running. Pause clears exactly when leaving
/// `Running` — a paused or idle indicator has nothing on the line — and
/// is otherwise a no-op. Stop moves every phase to `Stopped`, clearing
/// only from `Running`; stopping an already stopped indicator does
/// nothing. Continue resumes only from `Paused` and is ignored anywhere
/// else.
pub open spec fn spec_phase_step(ph: IndicatorPhase, inp: SpinnerInput) -> (
    IndicatorPhase,
    bool,
    bool,
) {
    match inp {
        SpinnerInput::Tick => (ph, ph is Running, false),
        SpinnerInput::DoPause => if ph is Running {
            (IndicatorPhase::Paused, false, true)
        } else {
            (ph, false, false)
        },
        SpinnerInput::DoStop => if ph is Running {
            (IndicatorPhase::Stopped, false, true)
        } else {
            (IndicatorPhase::Stopped, false, false)
        },
        SpinnerInput::DoContinue => if ph is Paused {
            (IndicatorPhase::Running, false, false)
        } else {
            (ph, false, false)
        },
    }
}

/// Whether the terminal line holds spinner output after one step, given
/// whether it held any before.
pub open spec fn spec_screen_dirty(dirty: bool, ph: IndicatorPhase, inp: SpinnerInput) -> bool {
    if spec_phase_step(ph, inp).2 {
        false
    } else if spec_phase_step(ph, inp).1 {
        true
    } else {
        dirty
    }
}

/// The phase and screen state after the rendering task processes a whole
/// sequence of inputs.
pub open spec fn spec_run_machine(ph: IndicatorPhase, dirty: bool, inputs: Seq<SpinnerInput>) -> (
    IndicatorPhase,
    bool,
)
    decreases inputs.len(),
{
    if inputs.len() == 0 {
        (ph, dirty)
    } else {
        spec_run_machine(
            spec_phase_step(ph, inputs.first()).0,
            spec_screen_dirty(dirty, ph, inputs.first()),
            inputs.drop_first(),
        )
    }
}

/// The terminal line is clean whenever the indicator is not running.
///
/// Starting from a fresh indicator and a clean line, any sequence of
/// ticks and commands leaves the line dirty only while the phase is
/// `Running`. In particular, after a stop — which moves the machine to
/// `Stopped` for good — no spinner output survives on the line and the
/// cursor has been shown: a subsequent foreground print cannot
/// interleave with a half-erased frame.
pub proof fn lemma_screen_clean_unless_running(inputs: Seq<SpinnerInput>)
    ensures
        spec_run_machine(IndicatorPhase::Idle, false, inputs).1 ==> spec_run_machine(
            IndicatorPhase::Idle,
            false,
            inputs,
        ).0 is Running,
{
    lemma_screen_clean_helper(IndicatorPhase::Idle, false, inputs);
}

/// Induction step for [`lemma_screen_clean_unless_running`]: the
/// invariant "dirty implies running" is preserved by every input.
proof fn lemma_screen_clean_helper(ph: IndicatorPhase, dirty: bool, inputs: Seq<SpinnerInput>)
    requires
        dirty ==> ph is Running,
    ensures
        spec_run_machine(ph, dirty, inputs).1 ==> spec_run_machine(ph, dirty, inputs).0 is Running,
    decreases inputs.len(),
{
    if inputs.len() > 0 {
        lemma_screen_clean_helper(
            spec_phase_step(ph, inputs.first()).0,
            spec_screen_dirty(dirty, ph, inputs.first()),
            inputs.drop_first(),
        );
    }
}

/// The animation's glyph for a frame index: a ten-step braille cycle.
pub open spec fn spec_glyph(index: u64) -> Seq<char> {
    let k = index as int % 10;
    if k == 0 {
        "\u{280b}"@
    } else if k == 1 {
        "\u{2819}"@
    } else if k == 2 {
        "\u{2839}"@
    } else if k == 3 {
        "\u{2838}"@
    } else if k == 4 {
        "\u{283c}"@
    } else if k == 5 {
        "\u{2834}"@
    } else if k == 6 {
        "\u{2826}"@
    } else if k == 7 {
        "\u{2827}"@
    } else if k == 8 {
        "\u{2807}"@
    } else {
        "\u{280f}"@
    }
}

/// The trailing dot animation, padded with spaces to a fixed width of
/// three so that a shrinking dot count still overwrites its predecessor.
pub open spec fn spec_dots(index: u64) -> Seq<char> {
    let k = (index as int / 5) % 4;
    if k == 0 {
        "   "@
    } else if k == 1 {
        ".  "@
    } else if k == 2 {
        ".. "@
    } else {
        "..."@
    }
}

/// The full line a frame draws: glyph, then the message, then the dots.
pub open spec fn spec_line(index: u64, message: Seq<char>) -> Seq<char> {
    spec_glyph(index) + message + spec_dots(index)
}

fn glyph_str(index: u64) -> (r: &'static str)
    ensures
        r@ == spec_glyph(index),
{
    let k = index % 10;
    if k == 0 {
        "\u{280b}"
    } else if k == 1 {
        "\u{2819}"
    } else if k == 2 {
        "\u{2839}"
    } else if k == 3 {
        "\u{2838}"
    } else if k == 4 {
        "\u{283c}"
    } else if k == 5 {
        "\u{2834}"
    } else if k == 6 {
        "\u{2826}"
    } else if k == 7 {
        "\u{2827}"
    } else if k == 8 {
        "\u{2807}"
    } else {
        "\u{280f}"
    }
}

fn dots_str(index: u64) -> (r: &'static str)
    ensures
        r@ == spec_dots(index),
{
    let k = (index / 5) % 4;
    if k == 0 {
        "   "
    } else if k == 1 {
        ".  "
    } else if k == 2 {
        ".. "
    } else {
        "..."
    }
}

/// The animation cycle: the glyph repeats every 10 ticks and the dots
/// every 20, so a frame index is only ever needed modulo 20.
pub const FRAME_CYCLE: u64 = 20;

/// The progress indicator: the animation's frame counter, its display
/// message, and where it stands in its lifecycle.
///
/// The machine itself never touches the terminal: [`Spinner::step`]
/// hands the rendering task the line to draw, and the pause and stop
/// transitions report whether the line must be cleared. The invariant
/// that a non-running indicator has left the line clean is proved of the
/// phase machine in [`lemma_screen_clean_unless_running`].
#[derive(Debug)]
pub struct Spinner {
    /// Current frame index, kept reduced modulo [`FRAME_CYCLE`].
    pub index: u64,
    /// The message shown beside the glyph.
    pub message: String,
    /// Lifecycle phase.
    pub phase: IndicatorPhase,
}

impl Spinner {
    /// The frame index never leaves its cycle.
    pub open spec fn wf(self) -> bool {
        self.index < FRAME_CYCLE
    }

    /// A fresh, not yet started indicator showing `message`.
    pub fn new(message: &str) -> (r: Spinner)
        ensures
            r.wf(),
            r.index == 0,
            r.message@ == message@,
            r.phase is Idle,
    {
        Spinner { index: 0, message: message.to_owned(), phase: IndicatorPhase::Idle }
    }

    /// Start the animation. Only a fresh indicator can start; a stopped
    /// one is never reused.
    pub fn start(&mut self)
        requires
            old(self).phase is Idle,
        ensures
            *final(self) == (Spinner { phase: IndicatorPhase::Running, ..*old(self) }),
    {
        self.phase = IndicatorPhase::Running;
    }

    /// One animation tick: while running, produce the line to draw and
    /// advance the frame; in any other phase, draw nothing and change
    /// nothing.
    pub fn step(&mut self) -> (r: Option<String>)
        requires
            old(self).wf(),
        ensures
            final(self).wf(),
            final(self).phase == old(self).phase,
            final(self).message == old(self).message,
            r is Some <==> spec_phase_step(old(self).phase, SpinnerInput::Tick).1,
            old(self).phase is Running ==> {
                &&& final(self).index == (old(self).index + 1) % (FRAME_CYCLE as int)
                &&& r matches Some(line) && line@ == spec_line(old(self).index, old(self).message@)
            },
            !(old(self).phase is Running) ==> *final(self) == *old(self),
    {
        match self.phase {
            IndicatorPhase::Running => {
                let mut line = glyph_str(self.index).to_owned();
                line.append(self.message.as_str());
                line.append(dots_str(self.index));
                self.index = (self.index + 1) % FRAME_CYCLE;
                Some(line)
            },
            _ => None,
        }
    }

    /// React to a pause command: leave `Running` for `Paused`, telling
    /// the caller to clear the line and show the cursor first; anywhere
    /// else there is nothing on the line and nothing changes.
    pub fn pause(&mut self) -> (clear: bool)
        ensures
            final(self).index == old(self).index,
            final(self).message == old(self).message,
            final(self).phase == spec_phase_step(old(self).phase, SpinnerInput::DoPause).0,
            clear == spec_phase_step(old(self).phase, SpinnerInput::DoPause).2,
    {
        match self.phase {
            IndicatorPhase::Running => {
                self.phase = IndicatorPhase::Paused;
                true
            },
            _ => false,
        }
    }

    /// React to a stop command: move to `Stopped` for good, telling the
    /// caller to clear the line exactly when the animation was still
    /// drawing. Stopping twice is safe: the second stop changes nothing
    /// and asks for no clear.
    pub fn stop(&mut self) -> (clear: bool)
        ensures
            final(self).index == old(self).index,
            final(self).message == old(self).message,
            final(self).phase == spec_phase_step(old(self).phase, SpinnerInput::DoStop).0,
            clear == spec_phase_step(old(self).phase, SpinnerInput::DoStop).2,
            final(self).phase is Stopped,
            old(self).phase is Stopped ==> *final(self) == *old(self) && !clear,
    {
        match self.phase {
            IndicatorPhase::Running => {
                self.phase = IndicatorPhase::Stopped;
                true
            },
            IndicatorPhase::Stopped => false,
            _ => {
                self.phase = IndicatorPhase::Stopped;
                false
            },
        }
    }

    /// React to a continue command: resume a paused animation with a new
    /// message. Continuing while already running is a no-op that leaves
    /// even the message unchanged, and a stopped or idle indicator
    /// ignores the command entirely.
    pub fn cont(&mut self, message: &str)
        ensures
            final(self).index == old(self).index,
            final(self).phase == spec_phase_step(old(self).phase, SpinnerInput::DoContinue).0,
            old(self).phase is Paused ==> final(self).message@ == message@,
            !(old(self).phase is Paused) ==> *final(self) == *old(self),
    {
        match self.phase {
            IndicatorPhase::Paused => {
                self.phase = IndicatorPhase::Running;
                self.message = message.to_owned();
            },
            _ => {},
        }
    }
}

/// What the rendering task must do after handling one command.
#[derive(Copy, Clone, Debug, PartialEq, Eq, Structural)]
pub struct CommandOutcome {
    /// Clear the rendered line and show the cursor, before anything else.
    pub clear: bool,
    /// Release the synchronisation gate the foreground is blocked on —
    /// only after the clear, so the foreground's next print cannot
    /// interleave with a half-erased frame.
    pub ack: bool,
    /// Exit the rendering task; the foreground joins it afterwards.
    pub exit: bool,
}

impl Spinner {
    /// Dispatch one command: pause and stop clear as needed and then
    /// acknowledge; stop additionally ends the rendering task; continue
    /// resumes a paused animation and acknowledges nothing.
    pub fn on_command(&mut self, cmd: SpinnerCommand) -> (r: CommandOutcome)
        ensures
            final(self).index == old(self).index,
            cmd is Pause ==> {
                &&& final(self).phase == spec_phase_step(old(self).phase, SpinnerInput::DoPause).0
                &&& final(self).message == old(self).message
                &&& r == (CommandOutcome {
                    clear: spec_phase_step(old(self).phase, SpinnerInput::DoPause).2,
                    ack: true,
                    exit: false,
                })
            },
            cmd is Stop ==> {
                &&& final(self).phase == spec_phase_step(old(self).phase, SpinnerInput::DoStop).0
                &&& final(self).message == old(self).message
                &&& r == (CommandOutcome {
                    clear: spec_phase_step(old(self).phase, SpinnerInput::DoStop).2,
                    ack: true,
                    exit: true,
                })
            },
            cmd matches SpinnerCommand::Continue(m) ==> {
                &&& final(self).phase == spec_phase_step(
                    old(self).phase,
                    SpinnerInput::DoContinue,
                ).0
                &&& (old(self).phase is Paused ==> final(self).message@ == m@)
                &&& (!(old(self).phase is Paused) ==> final(self).message == old(self).message)
                &&& r == (CommandOutcome { clear: false, ack: false, exit: false })
            },
    {
        match cmd {
            SpinnerCommand::Pause => {
                let clear = self.pause();
                CommandOutcome { clear, ack: true, exit: false }
            },
            SpinnerCommand::Stop => {
                let clear = self.stop();
                CommandOutcome { clear, ack: true, exit: true }
            },
            SpinnerCommand::Continue(m) => {
                self.cont(m.as_str());
                CommandOutcome { clear: false, ack: false, exit: false }
            },
        }
    }
}

/// Stopping is idempotent: the first stop moves the machine to
/// `Stopped`, and any further stop neither changes the phase nor asks
/// for another clear.
pub proof fn lemma_stop_twice_is_noop(ph: IndicatorPhase)
    ensures
        spec_phase_step(ph, SpinnerInput::DoStop).0 is Stopped,
        spec_phase_step(spec_phase_step(ph, SpinnerInput::DoStop).0, SpinnerInput::DoStop).0
            == spec_phase_step(ph, SpinnerInput::DoStop).0,
        !spec_phase_step(spec_phase_step(ph, SpinnerInput::DoStop).0, SpinnerInput::DoStop).2,
{
}

/// Continuing while already running changes nothing: the phase stays
/// `Running` and — as [`Spinner::cont`] guarantees — the message is left
/// unchanged.
pub proof fn lemma_continue_while_running_is_noop(ph: IndicatorPhase)
    requires
        ph is Running,
    ensures
        spec_phase_step(ph, SpinnerInput::DoContinue).0 == ph,
        !spec_phase_step(ph, SpinnerInput::DoContinue).1,
        !spec_phase_step(ph, SpinnerInput::DoContinue).2,
{
}

} // verus!