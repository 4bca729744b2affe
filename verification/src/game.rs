//! The game state machine: input-mode policy, the cross-tick command
//! queue, and the per-tick event dispatch that drives the render loop.
//!
//! The machine owns every decision of the event loop: which events are
//! input-shaped, whether raw events are forwarded to the game, how a
//! resize or a pointer movement changes the state, what a redraw tick
//! does, and how per-frame surface errors are answered. The embedding
//! performs the outside work each decision calls for (callbacks,
//! cursor warps, GPU submission) and reports outside facts back as
//! events.

pub mod input;
pub mod persist;
pub mod surface;

use vstd::prelude::*;
use vstd::string::StringExecFns;

use self::input::classify_pointer_delta;
use self::input::spec_abs;
use self::input::spec_clamp_axis;
use self::input::spec_pointer_direction;
use self::input::spec_pointer_magnitude;
use self::input::KeyCode;
use self::input::LinearInputActivation;
use self::input::LinearInputType;
use self::input::ModifiersState;
use self::input::VectorInputActivation;
use self::input::VectorInputType;
use self::input::POINTER_JITTER_THRESHOLD;
use self::surface::ResizableSurface;
use self::surface::ResizableSurfaceState;
use self::surface::SurfaceAccess;

verus! {

/// A window size in physical pixels.
#[derive(Debug, Clone, Copy, PartialEq, Eq, Structural)]
pub struct WindowSize {
    pub width: u32,
    pub height: u32,
}

/// Why the asynchronous bring-up failed. These are fatal: they mark
/// an unsatisfiable hardware or driver precondition, so the embedding
/// terminates through the game's (overridable) failure hook rather
/// than retrying.
#[derive(Debug)]
pub enum GameInitialisationFailure {
    /// No adapter (GPU) that supports the render surface was found.
    AdapterError,
    /// The chosen adapter rejected the device request, with the
    /// driver's own message.
    DeviceError(String),
}

impl GameInitialisationFailure {
    /// A readable description of the failure, for the failure hook's
    /// final report.
    pub fn describe(&self) -> (r: String)
        ensures
            match self {
                GameInitialisationFailure::AdapterError => r@
                    == "failed to find an adapter (GPU) that supports the render surface"@,
                GameInitialisationFailure::DeviceError(message) => r@
                    == "failed to request a device from the adapter chosen: "@ + message@,
            },
    {
        match self {
            GameInitialisationFailure::AdapterError => {
                "failed to find an adapter (GPU) that supports the render surface".to_owned()
            },
            GameInitialisationFailure::DeviceError(message) => {
                let mut r = "failed to request a device from the adapter chosen: ".to_owned();
                r.append(message.as_str());
                r
            },
        }
    }
}

/// A flag raised to request that the game shut down, checked once per
/// tick. The embedding mirrors it as a shared atomic so worker threads
/// can observe it; inside the verified machine it is a plain monotonic
/// boolean.
#[derive(Debug, Clone, Copy, PartialEq, Eq, Structural)]
pub struct ExitFlag {
    pub raised: bool,
}

impl ExitFlag {
    pub fn new() -> (r: Self)
        ensures
            !r.raised,
    {
        ExitFlag { raised: false }
    }

    pub fn get(&self) -> (r: bool)
        ensures
            r == self.raised,
    {
        self.raised
    }

    pub fn set(&mut self)
        ensures
            final(self).raised,
    {
        self.raised = true;
    }
}

/// How raw platform input is shared between the engine's input mapping
/// and the game's own raw-event handling.
#[derive(Debug, Clone, Copy, PartialEq, Eq, Structural)]
pub enum InputMode {
    /// The engine captures all input: no raw input events are passed to
    /// the game, and the cursor is hidden and locked to the centre.
    Exclusive,
    /// The engine captures nothing: every raw input event passes
    /// through to the game, and the cursor is free and visible.
    UI,
    /// Both: mapped input is handled, and raw events also pass through.
    Unified,
}

impl InputMode {
    pub open spec fn spec_should_hide_cursor(self) -> bool {
        self is Exclusive
    }

    pub open spec fn spec_should_handle_input(self) -> bool {
        !(self is UI)
    }

    pub open spec fn spec_should_propogate_raw_input(self) -> bool {
        !(self is Exclusive)
    }

    pub open spec fn spec_should_lock_cursor(self) -> bool {
        self is Exclusive
    }

    pub fn should_hide_cursor(self) -> (r: bool)
        ensures
            r == self.spec_should_hide_cursor(),
    {
        match self {
            InputMode::Exclusive => true,
            InputMode::UI => false,
            InputMode::Unified => false,
        }
    }

    pub fn should_handle_input(self) -> (r: bool)
        ensures
            r == self.spec_should_handle_input(),
    {
        match self {
            InputMode::Exclusive => true,
            InputMode::UI => false,
            InputMode::Unified => true,
        }
    }

    pub fn should_propogate_raw_input(self) -> (r: bool)
        ensures
            r == self.spec_should_propogate_raw_input(),
    {
        match self {
            InputMode::Exclusive => false,
            InputMode::UI => true,
            InputMode::Unified => true,
        }
    }

    pub fn should_lock_cursor(self) -> (r: bool)
        ensures
            r == self.spec_should_lock_cursor(),
    {
        match self {
            InputMode::Exclusive => true,
            InputMode::UI => false,
            InputMode::Unified => false,
        }
    }
}

/// A command sent to the game to change the game state. Commands are
/// queued from anywhere and applied in order once per tick, before the
/// frame is rendered.
#[derive(Debug, Clone, Copy, PartialEq, Eq, Structural)]
pub enum GameCommand {
    /// End the event loop at the next tick.
    Exit,
    /// Switch the input mode, adjusting cursor visibility to match.
    SetInputMode(InputMode),
    /// Set the pointer sensitivity, in thousandths of activation per
    /// physical unit of movement.
    SetMouseSensitivity(u32),
}

/// A per-frame presentation error, as the GPU reports it after a
/// render attempt.
#[derive(Debug, Clone, Copy, PartialEq, Eq, Structural)]
pub enum SurfaceError {
    /// The surface was lost (or the frame was flagged sub-optimal):
    /// force a resize-equivalent recovery at the current size.
    Lost,
    /// The GPU is out of memory: the loop must end.
    OutOfMemory,
    /// The surface is outdated; the next tick is expected to self-heal.
    Outdated,
    /// Acquiring the frame timed out; the next tick is expected to
    /// self-heal.
    Timeout,
}

/// One platform event, reduced to what the dispatch policy reads. The
/// embedding translates its window library's events into this shape
/// and drops events addressed to other windows before dispatching.
#[derive(Debug, Clone, Copy, PartialEq)]
pub enum GameEvent {
    /// The user asked to close the window.
    CloseRequested,
    /// The window was destroyed.
    Destroyed,
    /// The window was resized. A zero size reports a minimize, not a
    /// real resize, and is ignored.
    Resized(WindowSize),
    /// The display scale changed; no resize accompanies it here.
    ScaleFactorChanged,
    /// A key was pressed or released.
    KeyboardInput { key: KeyCode, pressed: bool, synthetic: bool, repeat: bool },
    /// The cursor moved to this position, in physical pixels.
    CursorMoved { x: i32, y: i32 },
    /// The keyboard modifier state changed.
    ModifiersChanged(ModifiersState),
    /// Another input-shaped window event (wheel, touch, cursor
    /// enter/leave and the like).
    OtherWindowInput,
    /// Another, non-input window event.
    OtherWindow,
    /// The platform asked for a frame.
    RedrawRequested,
    /// A raw device event (motion, button, key outside the window).
    DeviceInput,
    /// A non-input device event (device added or removed).
    DeviceOther,
    /// The loop went idle; a redraw is requested unconditionally so
    /// that rendering runs continuously.
    AboutToWait,
    /// Anything else.
    Other,
}

/// What the embedding must do after dispatching one event: invoke the
/// matching game callbacks, and carry out the cursor and loop actions
/// the machine decided on.
#[derive(Debug, Clone, Copy, PartialEq)]
pub struct EventOutcome {
    /// End the event loop.
    pub exit_loop: bool,
    /// Tell the game the user asked to exit (the game then decides
    /// whether to enqueue `GameCommand::Exit`; the flag alone does not
    /// end the loop).
    pub notify_exit_requested: bool,
    /// Tell the game the window was resized to this size.
    pub resized: Option<WindowSize>,
    /// Look this linear input up in the input map and, if bound, hand
    /// the action and activation to the game.
    pub linear: Option<(LinearInputType, LinearInputActivation)>,
    /// Look this vector input up in the input map and, if bound, hand
    /// the action and activation to the game.
    pub vector: Option<(VectorInputType, VectorInputActivation)>,
    /// Warp the platform cursor to this position (the window centre).
    pub warp_cursor_to: Option<(u32, u32)>,
    /// Attempt one frame: ask the surface machine for access, render,
    /// and report any `SurfaceError` through `handle_render_error`.
    pub render: bool,
    /// Ask the platform for a redraw.
    pub request_redraw: bool,
}

impl EventOutcome {
    /// The outcome that asks nothing of the embedding.
    pub open spec fn spec_quiet() -> EventOutcome {
        EventOutcome {
            exit_loop: false,
            notify_exit_requested: false,
            resized: None,
            linear: None,
            vector: None,
            warp_cursor_to: None,
            render: false,
            request_redraw: false,
        }
    }

    pub fn quiet() -> (r: EventOutcome)
        ensures
            r == Self::spec_quiet(),
    {
        EventOutcome {
            exit_loop: false,
            notify_exit_requested: false,
            resized: None,
            linear: None,
            vector: None,
            warp_cursor_to: None,
            render: false,
            request_redraw: false,
        }
    }
}

/// The pointer sensitivity a fresh state starts with, in thousandths
/// of activation per physical unit: one hundredth.
pub const DEFAULT_MOUSE_SENSITIVITY: u32 = 10;

/// The state of the verified game core, as specifications see it.
pub ghost struct GameStateView {
    pub input_mode: InputMode,
    pub mouse_sensitivity: u32,
    pub last_cursor_position: (i32, i32),
    pub size: WindowSize,
    pub surface: ResizableSurface,
    pub exit_requested: bool,
    pub commands: Seq<GameCommand>,
    pub cursor_visible: bool,
}

/// The long-lived state the event loop drives: the input mode and
/// sensitivity, the cursor bookkeeping, the command queue, the exit
/// flag, and the surface-resize machine.
pub struct GameState {
    /// How raw input is currently shared; mutated only by commands.
    pub input_mode: InputMode,
    /// Multiplier from pointer units to activation thousandths.
    pub mouse_sensitivity: u32,
    /// The last position the cursor was seen at, in physical pixels.
    pub last_cursor_position: (i32, i32),
    /// The current window size, in physical pixels.
    pub size: WindowSize,
    /// The resize state machine of the presentation surface.
    pub surface: ResizableSurface,
    /// Raised when the game should shut down.
    pub exit_flag: ExitFlag,
    /// Commands waiting for the next tick, oldest first.
    pub commands: Vec<GameCommand>,
    /// Whether the platform cursor should currently be visible.
    pub cursor_visible: bool,
}

impl View for GameState {
    type V = GameStateView;

    open spec fn view(&self) -> GameStateView {
        GameStateView {
            input_mode: self.input_mode,
            mouse_sensitivity: self.mouse_sensitivity,
            last_cursor_position: self.last_cursor_position,
            size: self.size,
            surface: self.surface,
            exit_requested: self.exit_flag.raised,
            commands: self.commands@,
            cursor_visible: self.cursor_visible,
        }
    }
}

/// The state a fresh game starts from: unified input, default
/// sensitivity, a visible cursor, and the queue seeded with the
/// command that re-asserts the unified mode on the first tick.
pub open spec fn spec_initial_state(size: WindowSize) -> GameStateView {
    GameStateView {
        input_mode: InputMode::Unified,
        mouse_sensitivity: DEFAULT_MOUSE_SENSITIVITY,
        last_cursor_position: (0, 0),
        size: size,
        surface: ResizableSurface::spec_new(),
        exit_requested: false,
        commands: seq![GameCommand::SetInputMode(InputMode::Unified)],
        cursor_visible: true,
    }
}

/// The effect of one command on the state.
pub open spec fn spec_apply_command(s: GameStateView, cmd: GameCommand) -> GameStateView {
    match cmd {
        GameCommand::Exit => GameStateView { exit_requested: true, ..s },
        GameCommand::SetInputMode(mode) => GameStateView {
            input_mode: mode,
            cursor_visible: !mode.spec_should_hide_cursor(),
            ..s
        },
        GameCommand::SetMouseSensitivity(v) => GameStateView { mouse_sensitivity: v, ..s },
    }
}

/// The effect of a command sequence, applied oldest first.
pub open spec fn spec_apply_commands(s: GameStateView, cmds: Seq<GameCommand>) -> GameStateView
    decreases cmds.len(),
{
    if cmds.len() == 0 {
        s
    } else {
        spec_apply_commands(spec_apply_command(s, cmds[0]), cmds.drop_first())
    }
}

/// One tick's command drain: every queued command is applied in FIFO
/// order and the queue is left empty. Commands enqueued during the
/// drain itself are not re-observed until the next tick (none of the
/// commands can enqueue).
pub open spec fn spec_drain(s: GameStateView) -> GameStateView {
    spec_apply_commands(GameStateView { commands: Seq::empty(), ..s }, s.commands)
}

/// The effect of a window resize: a zero dimension reports a minimize
/// and is ignored; otherwise the size is recorded and the surface
/// machine is told to resize.
pub open spec fn spec_resize(s: GameStateView, size: WindowSize) -> GameStateView {
    if size.width > 0 && size.height > 0 {
        GameStateView { size: size, surface: s.surface.spec_after_resize(size), ..s }
    } else {
        s
    }
}

/// Applying a command never touches the queue itself.
pub proof fn lemma_apply_commands_queue(s: GameStateView, cmds: Seq<GameCommand>)
    ensures
        spec_apply_commands(s, cmds).commands == s.commands,
    decreases cmds.len(),
{
    if cmds.len() > 0 {
        lemma_apply_commands_queue(spec_apply_command(s, cmds[0]), cmds.drop_first());
    }
}

/// Appending one command to a drained batch applies it last.
pub proof fn lemma_apply_commands_snoc(
    s: GameStateView,
    cmds: Seq<GameCommand>,
    cmd: GameCommand,
)
    ensures
        spec_apply_commands(s, cmds.push(cmd)) == spec_apply_command(
            spec_apply_commands(s, cmds),
            cmd,
        ),
    decreases cmds.len(),
{
    reveal_with_fuel(spec_apply_commands, 3);
    if cmds.len() == 0 {
        assert(cmds.push(cmd)[0] == cmd);
        assert(cmds.push(cmd).drop_first() =~= Seq::<GameCommand>::empty());
    } else {
        assert(cmds.push(cmd)[0] == cmds[0]);
        assert(cmds.push(cmd).drop_first() =~= cmds.drop_first().push(cmd));
        lemma_apply_commands_snoc(spec_apply_command(s, cmds[0]), cmds.drop_first(), cmd);
    }
}

/// The state change and required actions of one dispatched event.
pub open spec fn spec_process_event(s: GameStateView, event: GameEvent) -> (
    GameStateView,
    EventOutcome,
) {
    match event {
        GameEvent::CloseRequested | GameEvent::Destroyed => (
            GameStateView { exit_requested: true, ..s },
            EventOutcome { notify_exit_requested: true, ..EventOutcome::spec_quiet() },
        ),
        GameEvent::Resized(size) => (
            spec_resize(s, size),
            EventOutcome {
                resized: if size.width > 0 && size.height > 0 {
                    Some(size)
                } else {
                    None
                },
                ..EventOutcome::spec_quiet()
            },
        ),
        GameEvent::KeyboardInput { key, pressed, synthetic, repeat } => (
            s,
            if !synthetic && !repeat && s.input_mode.spec_should_handle_input() {
                EventOutcome {
                    linear: Some(
                        (
                            LinearInputType::KnownKeyboard(key),
                            LinearInputActivation::spec_new(
                                if pressed {
                                    input::ACTIVATION_SCALE
                                } else {
                                    0
                                },
                            ),
                        ),
                    ),
                    ..EventOutcome::spec_quiet()
                }
            } else {
                EventOutcome::spec_quiet()
            },
        ),
        GameEvent::CursorMoved { x, y } => spec_process_cursor_moved(s, x, y),
        GameEvent::RedrawRequested => (
            spec_drain(s),
            EventOutcome {
                exit_loop: spec_drain(s).exit_requested,
                render: true,
                ..EventOutcome::spec_quiet()
            },
        ),
        GameEvent::AboutToWait => (
            s,
            EventOutcome { request_redraw: true, ..EventOutcome::spec_quiet() },
        ),
        _ => (s, EventOutcome::spec_quiet()),
    }
}

/// The cursor-movement part of the dispatch: deltas against the last
/// seen position feed the linear channel (when they clear the jitter
/// threshold) and the vector channel, both only while the mode handles
/// mapped input; afterwards, a mode that locks the cursor warps it
/// back to the window centre, and the centre becomes the remembered
/// position so the warp does not echo as a spurious delta.
pub open spec fn spec_process_cursor_moved(s: GameStateView, x: i32, y: i32) -> (
    GameStateView,
    EventOutcome,
) {
    let dx = x as int - s.last_cursor_position.0 as int;
    let dy = y as int - s.last_cursor_position.1 as int;
    let handle = s.input_mode.spec_should_handle_input();
    let lock = s.input_mode.spec_should_lock_cursor();
    let cw = s.size.width as int / 2;
    let ch = s.size.height as int / 2;
    let linear = if handle && (spec_abs(dx) > POINTER_JITTER_THRESHOLD || spec_abs(dy)
        > POINTER_JITTER_THRESHOLD) {
        Some(
            (
                LinearInputType::Mouse(spec_pointer_direction(dx, dy)),
                LinearInputActivation::spec_new(
                    spec_pointer_magnitude(dx, dy, s.mouse_sensitivity as int) as u32,
                ),
            ),
        )
    } else {
        None
    };
    let vector = if handle {
        Some(
            (
                VectorInputType::MouseMove,
                VectorInputActivation::spec_new(
                    spec_clamp_axis(dx * s.mouse_sensitivity) as i32,
                    spec_clamp_axis(dy * s.mouse_sensitivity) as i32,
                ),
            ),
        )
    } else {
        None
    };
    let warp = if lock && !(x == cw && y == ch) {
        Some((cw as u32, ch as u32))
    } else {
        None
    };
    let new_last: (i32, i32) = if lock {
        (cw as i32, ch as i32)
    } else {
        (x, y)
    };
    (
        GameStateView { last_cursor_position: new_last, ..s },
        EventOutcome { linear: linear, vector: vector, warp_cursor_to: warp, ..EventOutcome::spec_quiet() },
    )
}

/// The recovery decided for a per-frame presentation error.
pub open spec fn spec_handle_render_error(s: GameStateView, error: SurfaceError) -> (
    GameStateView,
    bool,
) {
    match error {
        SurfaceError::Lost => (spec_resize(s, s.size), false),
        SurfaceError::OutOfMemory => (s, true),
        SurfaceError::Outdated | SurfaceError::Timeout => (s, false),
    }
}

impl GameState {
    /// Builds the state the bring-up sequence hands to the event loop.
    pub fn new(size: WindowSize) -> (r: Self)
        ensures
            r@ == spec_initial_state(size),
    {
        let mut commands: Vec<GameCommand> = Vec::new();
        commands.push(GameCommand::SetInputMode(InputMode::Unified));
        let r = GameState {
            input_mode: InputMode::Unified,
            mouse_sensitivity: DEFAULT_MOUSE_SENSITIVITY,
            last_cursor_position: (0, 0),
            size: size,
            surface: ResizableSurface::new(),
            exit_flag: ExitFlag::new(),
            commands: commands,
            cursor_visible: true,
        };
        proof {
            assert(r@.commands =~= spec_initial_state(size).commands);
        }
        r
    }

    /// Queues a command for the next tick's drain. The embedding's
    /// multi-producer channel ends here: whatever a worker thread
    /// sends is appended, in arrival order, before the drain.
    pub fn enqueue_command(&mut self, cmd: GameCommand)
        ensures
            final(self)@ == (GameStateView { commands: old(self)@.commands.push(cmd), ..old(self)@ }),
    {
        self.commands.push(cmd);
    }

    /// True when this event should first be offered to the game's raw
    /// event interceptor: always for non-input events, and for input
    /// events only while the mode propagates raw input.
    pub fn should_forward_raw(&self, event: &GameEvent) -> (r: bool)
        ensures
            r == (self@.input_mode.spec_should_propogate_raw_input() || !spec_is_input_event(
                *event,
            )),
    {
        self.input_mode.should_propogate_raw_input() || !GameState::is_input_event(event)
    }

    /// Whether an event is input-shaped: those are withheld from the
    /// game's raw interceptor while the engine captures input.
    pub fn is_input_event(event: &GameEvent) -> (r: bool)
        ensures
            r == spec_is_input_event(*event),
    {
        match event {
            GameEvent::KeyboardInput { .. } => true,
            GameEvent::CursorMoved { .. } => true,
            GameEvent::ModifiersChanged(..) => true,
            GameEvent::OtherWindowInput => true,
            GameEvent::DeviceInput => true,
            _ => false,
        }
    }

    /// Raises the exit flag; the game is told separately through the
    /// `notify_exit_requested` outcome and decides itself whether to
    /// enqueue `GameCommand::Exit`.
    pub fn request_exit(&mut self)
        ensures
            final(self)@ == (GameStateView { exit_requested: true, ..old(self)@ }),
    {
        self.exit_flag.set();
    }

    /// Applies a window resize, ignoring the zero size that platforms
    /// report for a minimize.
    pub fn resize(&mut self, new_size: WindowSize)
        ensures
            final(self)@ == spec_resize(old(self)@, new_size),
    {
        if new_size.width > 0 && new_size.height > 0 {
            self.size = new_size;
            self.surface.resize(new_size);
        }
    }

    /// Drains the queued commands, applying each in FIFO order.
    pub fn pre_frame_update(&mut self)
        ensures
            final(self)@ == spec_drain(old(self)@),
    {
        let mut cmds: Vec<GameCommand> = Vec::new();
        core::mem::swap(&mut cmds, &mut self.commands);
        let ghost scrubbed = GameStateView { commands: Seq::empty(), ..old(self)@ };
        let mut i: usize = 0;
        while i < cmds.len()
            invariant
                i <= cmds@.len(),
                self@ == spec_apply_commands(scrubbed, cmds@.take(i as int)),
            decreases cmds@.len() - i,
        {
            let ghost before = self@;
            let cmd = cmds[i];
            match cmd {
                GameCommand::Exit => {
                    self.exit_flag.set();
                },
                GameCommand::SetInputMode(mode) => {
                    self.input_mode = mode;
                    let visible = !mode.should_hide_cursor();
                    self.cursor_visible = visible;
                },
                GameCommand::SetMouseSensitivity(v) => {
                    self.mouse_sensitivity = v;
                },
            }
            proof {
                assert(self@ == spec_apply_command(before, cmd));
                assert(cmds@.take(i + 1) =~= cmds@.take(i as int).push(cmd));
                lemma_apply_commands_snoc(scrubbed, cmds@.take(i as int), cmd);
            }
            i += 1;
        }
        proof {
            assert(cmds@.take(cmds@.len() as int) =~= cmds@);
        }
    }

    /// Dispatches one platform event: updates the state and reports
    /// what the embedding must now do.
    pub fn process_event(&mut self, event: GameEvent) -> (outcome: EventOutcome)
        ensures
            final(self)@ == spec_process_event(old(self)@, event).0,
            outcome == spec_process_event(old(self)@, event).1,
    {
        match event {
            GameEvent::CloseRequested | GameEvent::Destroyed => {
                self.request_exit();
                let mut outcome = EventOutcome::quiet();
                outcome.notify_exit_requested = true;
                outcome
            },
            GameEvent::Resized(size) => {
                let mut outcome = EventOutcome::quiet();
                if size.width > 0 && size.height > 0 {
                    outcome.resized = Some(size);
                }
                self.resize(size);
                outcome
            },
            GameEvent::KeyboardInput { key, pressed, synthetic, repeat } => {
                let mut outcome = EventOutcome::quiet();
                if !synthetic && !repeat && self.input_mode.should_handle_input() {
                    let (input, activation) = input::classify_keyboard(key, pressed);
                    proof {
                        LinearInputActivation::lemma_spec_new_get(
                            if pressed {
                                input::ACTIVATION_SCALE
                            } else {
                                0
                            },
                        );
                        LinearInputActivation::lemma_ext(
                            activation,
                            LinearInputActivation::spec_new(
                                if pressed {
                                    input::ACTIVATION_SCALE
                                } else {
                                    0
                                },
                            ),
                        );
                    }
                    outcome.linear = Some((input, activation));
                }
                outcome
            },
            GameEvent::CursorMoved { x, y } => self.process_cursor_moved(x, y),
            GameEvent::RedrawRequested => {
                self.pre_frame_update();
                let mut outcome = EventOutcome::quiet();
                outcome.exit_loop = self.exit_flag.get();
                outcome.render = true;
                outcome
            },
            GameEvent::AboutToWait => {
                let mut outcome = EventOutcome::quiet();
                outcome.request_redraw = true;
                outcome
            },
            _ => EventOutcome::quiet(),
        }
    }

    fn process_cursor_moved(&mut self, x: i32, y: i32) -> (outcome: EventOutcome)
        ensures
            final(self)@ == spec_process_cursor_moved(old(self)@, x, y).0,
            outcome == spec_process_cursor_moved(old(self)@, x, y).1,
    {
        let dx: i64 = x as i64 - self.last_cursor_position.0 as i64;
        let dy: i64 = y as i64 - self.last_cursor_position.1 as i64;
        let mut outcome = EventOutcome::quiet();
        if self.input_mode.should_handle_input() {
            let (linear, vector) = classify_pointer_delta(dx, dy, self.mouse_sensitivity);
            proof {
                let ghost mag = spec_pointer_magnitude(
                    dx as int,
                    dy as int,
                    self.mouse_sensitivity as int,
                );
                LinearInputActivation::lemma_spec_new_get(mag as u32);
                if linear is Some {
                    LinearInputActivation::lemma_ext(
                        linear->Some_0.1,
                        LinearInputActivation::spec_new(mag as u32),
                    );
                }
                VectorInputActivation::lemma_spec_new_get(
                    spec_clamp_axis(dx as int * self.mouse_sensitivity as int) as i32,
                    spec_clamp_axis(dy as int * self.mouse_sensitivity as int) as i32,
                );
                VectorInputActivation::lemma_ext(
                    vector,
                    VectorInputActivation::spec_new(
                        spec_clamp_axis(dx as int * self.mouse_sensitivity as int) as i32,
                        spec_clamp_axis(dy as int * self.mouse_sensitivity as int) as i32,
                    ),
                );
            }
            outcome.linear = linear;
            outcome.vector = Some((VectorInputType::MouseMove, vector));
        }
        if self.input_mode.should_lock_cursor() {
            let cw: u32 = self.size.width / 2;
            let ch: u32 = self.size.height / 2;
            let cx: i32 = cw as i32;
            let cy: i32 = ch as i32;
            if !(x == cx && y == cy) {
                outcome.warp_cursor_to = Some((cw, ch));
            }
            self.last_cursor_position = (cx, cy);
        } else {
            self.last_cursor_position = (x, y);
        }
        outcome
    }

    /// Answers a per-frame presentation error: a lost (or sub-optimal)
    /// surface forces a resize-equivalent recovery at the current
    /// size, out-of-memory ends the loop, and the transient errors are
    /// left for the next tick to self-heal.
    pub fn handle_render_error(&mut self, error: SurfaceError) -> (exit: bool)
        ensures
            final(self)@ == spec_handle_render_error(old(self)@, error).0,
            exit == spec_handle_render_error(old(self)@, error).1,
    {
        match error {
            SurfaceError::Lost => {
                let size = self.size;
                self.resize(size);
                false
            },
            SurfaceError::OutOfMemory => true,
            SurfaceError::Outdated | SurfaceError::Timeout => false,
        }
    }
}

/// Whether an event is input-shaped.
pub open spec fn spec_is_input_event(event: GameEvent) -> bool {
    match event {
        GameEvent::KeyboardInput { .. } => true,
        GameEvent::CursorMoved { .. } => true,
        GameEvent::ModifiersChanged(..) => true,
        GameEvent::OtherWindowInput => true,
        GameEvent::DeviceInput => true,
        _ => false,
    }
}

} // verus!
