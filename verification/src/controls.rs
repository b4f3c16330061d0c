//! The main loop's decisions: which movement command the held arrow keys
//! give, when the game ends, and when a new enemy appears.

use vstd::prelude::*;

use crate::components::Direction;

verus! {

/// What the keyboard asks the player to do.
#[derive(Clone, Copy, Debug, PartialEq, Eq, Structural)]
pub enum MovementCommand {
    Stop,
    Move(Direction),
}

/// The keys the game reacts to.
#[derive(Clone, Copy, Debug, PartialEq, Eq, Structural)]
pub enum Key {
    Escape,
    Left,
    Right,
    Up,
    Down,
    Other,
}

/// An input event, as far as the game looks at it.
#[derive(Clone, Copy, Debug, PartialEq, Eq, Structural)]
pub enum InputEvent {
    /// The window was closed.
    Quit,
    /// A key went down; `repeat` is set for the auto-repeat of a held key.
    KeyDown { key: Key, repeat: bool },
    /// A key went up.
    KeyUp { key: Key, repeat: bool },
    /// Anything else.
    Other,
}

/// Whether the main loop goes on after an event.
#[derive(Clone, Copy, Debug, PartialEq, Eq, Structural)]
pub enum LoopControl {
    Continue,
    Quit,
}

/// The direction of an arrow key.
pub open spec fn arrow_direction(key: Key) -> Option<Direction> {
    match key {
        Key::Left => Some(Direction::Left),
        Key::Right => Some(Direction::Right),
        Key::Up => Some(Direction::Up),
        Key::Down => Some(Direction::Down),
        _ => None,
    }
}

/// `s` without any occurrence of `c`, the rest in order.
pub open spec fn without(s: Seq<MovementCommand>, c: MovementCommand) -> Seq<MovementCommand>
    decreases s.len(),
{
    if s.len() == 0 {
        s
    } else if s.last() == c {
        without(s.drop_last(), c)
    } else {
        without(s.drop_last(), c).push(s.last())
    }
}

/// A stack of commands as the game keeps it: `Stop` at the bottom, once,
/// and only `Move` commands above it.
pub open spec fn stack_wf(s: Seq<MovementCommand>) -> bool {
    &&& s.len() > 0
    &&& s[0] == MovementCommand::Stop
    &&& forall|i: int| 1 <= i < s.len() ==> #[trigger] s[i] != MovementCommand::Stop
}

/// The command stack after `event`.
pub open spec fn stack_after(s: Seq<MovementCommand>, event: InputEvent) -> Seq<MovementCommand> {
    match event {
        InputEvent::KeyDown { key, repeat: false } => match arrow_direction(key) {
            Some(d) => s.push(MovementCommand::Move(d)),
            None => s,
        },
        InputEvent::KeyUp { key, repeat: false } => match arrow_direction(key) {
            Some(d) => without(s, MovementCommand::Move(d)),
            None => s,
        },
        _ => s,
    }
}

/// Whether `event` ends the game: the window closes or Escape goes down.
pub open spec fn ends_game(event: InputEvent) -> bool {
    match event {
        InputEvent::Quit => true,
        InputEvent::KeyDown { key: Key::Escape, .. } => true,
        _ => false,
    }
}

/// The arrow keys held, in the order they went down, above a `Stop` that
/// is always there; the command in force is the top one.
#[derive(Debug)]
pub struct Controls {
    arrows: Vec<MovementCommand>,
}

impl View for Controls {
    type V = Seq<MovementCommand>;

    closed spec fn view(&self) -> Seq<MovementCommand> {
        self.arrows@
    }
}

impl Controls {
    /// Well-formed: the stack of commands has `Stop` at the bottom only.
    pub open spec fn wf(&self) -> bool {
        stack_wf(self@)
    }

    /// No arrow key held: the command in force is `Stop`.
    pub fn new() -> (c: Controls)
        ensures
            c@ == seq![MovementCommand::Stop],
            c.wf(),
    {
        let mut arrows: Vec<MovementCommand> = Vec::new();
        arrows.push(MovementCommand::Stop);
        Controls { arrows }
    }

    /// The command in force: the most recently pressed arrow key still held,
    /// or `Stop` when none is.
    pub fn current(&self) -> (cmd: Option<MovementCommand>)
        requires
            self.wf(),
        ensures
            cmd == Some(self@.last()),
    {
        let n = self.arrows.len();
        Some(self.arrows[n - 1])
    }

    /// Removes every `c` from the stack, keeping the rest in order.
    fn remove_all(&mut self, c: MovementCommand)
        ensures
            final(self)@ == without(old(self)@, c),
    {
        let mut kept: Vec<MovementCommand> = Vec::new();
        let n = self.arrows.len();
        let mut i: usize = 0;
        while i < n
            invariant
                n == self.arrows.len(),
                self@ == old(self)@,
                0 <= i <= n,
                kept@ == without(self@.take(i as int), c),
            decreases n - i,
        {
            let m = self.arrows[i];
            assert(self@.take(i + 1).drop_last() =~= self@.take(i as int));
            if m != c {
                kept.push(m);
            }
            i = i + 1;
        }
        assert(self@.take(n as int) =~= self@);
        self.arrows = kept;
    }

    /// Updates the held keys for `event` and says whether the game goes on.
    pub fn handle_event(&mut self, event: InputEvent) -> (r: LoopControl)
        requires
            old(self).wf(),
        ensures
            final(self).wf(),
            r == LoopControl::Quit <==> ends_game(event),
            r == LoopControl::Quit <==> (event == InputEvent::Quit || exists|rep: bool|
                event == (InputEvent::KeyDown { key: Key::Escape, repeat: rep })),
            r == LoopControl::Quit ==> final(self)@ == old(self)@,
            r == LoopControl::Continue ==> final(self)@ == stack_after(old(self)@, event),
    {
        proof {
            lemma_stack_after_wf(self@, event);
            lemma_only_quit_or_escape_ends(event, Key::Other, false);
        }
        match event {
            InputEvent::Quit => LoopControl::Quit,
            InputEvent::KeyDown { key: Key::Escape, .. } => LoopControl::Quit,
            InputEvent::KeyDown { key, repeat: false } => {
                match Controls::arrow(key) {
                    Some(d) => self.arrows.push(MovementCommand::Move(d)),
                    None => {},
                }
                LoopControl::Continue
            },
            InputEvent::KeyUp { key, repeat: false } => {
                match Controls::arrow(key) {
                    Some(d) => self.remove_all(MovementCommand::Move(d)),
                    None => {},
                }
                LoopControl::Continue
            },
            _ => LoopControl::Continue,
        }
    }

    /// The direction of an arrow key, `None` for any other key.
    pub fn arrow(key: Key) -> (d: Option<Direction>)
        ensures
            d == arrow_direction(key),
    {
        match key {
            Key::Left => Some(Direction::Left),
            Key::Right => Some(Direction::Right),
            Key::Up => Some(Direction::Up),
            Key::Down => Some(Direction::Down),
            _ => None,
        }
    }
}

/// Removing a command leaves no copy of it behind.
pub proof fn lemma_without_removes(s: Seq<MovementCommand>, c: MovementCommand)
    ensures
        !without(s, c).contains(c),
    decreases s.len(),
{
    if s.len() > 0 {
        let w = without(s.drop_last(), c);
        lemma_without_removes(s.drop_last(), c);
        if without(s, c).contains(c) {
            let k = choose|k: int| 0 <= k < without(s, c).len() && without(s, c)[k] == c;
            if k < w.len() {
                assert(w[k] == c);
            }
        }
    }
}

/// Removing a command that is not there changes nothing.
pub proof fn lemma_without_absent(s: Seq<MovementCommand>, c: MovementCommand)
    requires
        !s.contains(c),
    ensures
        without(s, c) == s,
    decreases s.len(),
{
    if s.len() > 0 {
        let p = s.drop_last();
        assert forall|j: int| 0 <= j < p.len() implies p[j] != c by {
            assert(s[j] == p[j]);
        }
        lemma_without_absent(p, c);
        assert(s.last() != c);
        assert(s =~= p.push(s.last()));
    }
}

/// Removing a command keeps every other command that was there, and adds
/// none.
pub proof fn lemma_without_keeps_others(s: Seq<MovementCommand>, c: MovementCommand, x: MovementCommand)
    requires
        x != c,
    ensures
        s.contains(x) <==> without(s, c).contains(x),
    decreases s.len(),
{
    if s.len() > 0 {
        let p = s.drop_last();
        let w = without(p, c);
        lemma_without_keeps_others(p, c, x);
        if s.contains(x) {
            let j = choose|j: int| 0 <= j < s.len() && s[j] == x;
            if j < s.len() - 1 {
                assert(p[j] == x);
                let k = choose|k: int| 0 <= k < w.len() && w[k] == x;
                assert(without(s, c)[k] == x);
            } else {
                assert(without(s, c)[without(s, c).len() - 1] == x);
            }
        }
        if without(s, c).contains(x) {
            let k = choose|k: int| 0 <= k < without(s, c).len() && without(s, c)[k] == x;
            if k < w.len() {
                assert(w[k] == x);
                let j = choose|j: int| 0 <= j < p.len() && p[j] == x;
                assert(s[j] == x);
            } else {
                assert(s[s.len() - 1] == x);
            }
        }
    }
}

/// Removing a `Move` command from a well-formed stack leaves it well-formed.
pub proof fn lemma_without_wf(s: Seq<MovementCommand>, c: MovementCommand)
    requires
        stack_wf(s),
        c != MovementCommand::Stop,
    ensures
        stack_wf(without(s, c)),
    decreases s.len(),
{
    if s.len() == 1 {
        assert(without(s.drop_last(), c) =~= Seq::<MovementCommand>::empty());
        assert(without(s, c) =~= seq![MovementCommand::Stop]);
    } else {
        let p = s.drop_last();
        assert forall|i: int| 1 <= i < p.len() implies #[trigger] p[i] != MovementCommand::Stop by {
            assert(p[i] == s[i]);
        }
        lemma_without_wf(p, c);
        let w = without(p, c);
        if s.last() != c {
            let t = w.push(s.last());
            assert(s.last() == s[s.len() - 1]);
            assert forall|i: int| 1 <= i < t.len() implies #[trigger] t[i]
                != MovementCommand::Stop by {
                if i < w.len() {
                    assert(t[i] == w[i]);
                }
            }
        }
    }
}

/// Every event leaves a well-formed stack well-formed: `Stop` stays at the
/// bottom, so a command is always in force.
pub proof fn lemma_stack_after_wf(s: Seq<MovementCommand>, event: InputEvent)
    requires
        stack_wf(s),
    ensures
        stack_wf(stack_after(s, event)),
{
    match event {
        InputEvent::KeyDown { key, repeat: false } => {
            match arrow_direction(key) {
                Some(d) => {
                    let t = s.push(MovementCommand::Move(d));
                    assert forall|i: int| 1 <= i < t.len() implies #[trigger] t[i]
                        != MovementCommand::Stop by {
                        if i < s.len() {
                            assert(t[i] == s[i]);
                        }
                    }
                },
                None => {},
            }
        },
        InputEvent::KeyUp { key, repeat: false } => {
            match arrow_direction(key) {
                Some(d) => {
                    lemma_without_wf(s, MovementCommand::Move(d));
                },
                None => {},
            }
        },
        _ => {},
    }
}

/// Only closing the window or pressing Escape ends the game: no key
/// release, no other key press and no other event does.
pub proof fn lemma_only_quit_or_escape_ends(event: InputEvent, key: Key, repeat: bool)
    ensures
        ends_game(event) <==> (event == InputEvent::Quit || exists|rep: bool|
            event == (InputEvent::KeyDown { key: Key::Escape, repeat: rep })),
        ends_game(InputEvent::Quit),
        ends_game(InputEvent::KeyDown { key: Key::Escape, repeat }),
        !ends_game(InputEvent::KeyUp { key, repeat }),
        !ends_game(InputEvent::Other),
        key != Key::Escape ==> !ends_game(InputEvent::KeyDown { key, repeat }),
{
    if let InputEvent::KeyDown { key: Key::Escape, repeat: rep } = event {
        assert(event == (InputEvent::KeyDown { key: Key::Escape, repeat: rep }));
    }
}

/// Pressing an arrow key puts its movement in force at once.
pub proof fn lemma_key_down_takes_over(s: Seq<MovementCommand>, key: Key, d: Direction)
    requires
        arrow_direction(key) == Some(d),
    ensures
        stack_after(s, InputEvent::KeyDown { key, repeat: false }).last()
            == MovementCommand::Move(d),
{
}

/// Each arrow key commands its own direction, and a key press that is not
/// an arrow changes no command.
pub proof fn lemma_arrow_keys(s: Seq<MovementCommand>, repeat: bool)
    ensures
        stack_after(s, InputEvent::KeyDown { key: Key::Left, repeat: false }) == s.push(
            MovementCommand::Move(Direction::Left),
        ),
        stack_after(s, InputEvent::KeyDown { key: Key::Right, repeat: false }) == s.push(
            MovementCommand::Move(Direction::Right),
        ),
        stack_after(s, InputEvent::KeyDown { key: Key::Up, repeat: false }) == s.push(
            MovementCommand::Move(Direction::Up),
        ),
        stack_after(s, InputEvent::KeyDown { key: Key::Down, repeat: false }) == s.push(
            MovementCommand::Move(Direction::Down),
        ),
        stack_after(s, InputEvent::KeyDown { key: Key::Other, repeat }) == s,
        stack_after(s, InputEvent::KeyUp { key: Key::Other, repeat }) == s,
        stack_after(s, InputEvent::KeyUp { key: Key::Escape, repeat }) == s,
        stack_after(s, InputEvent::Other) == s,
        stack_after(s, InputEvent::Quit) == s,
{
}

/// Releasing an arrow key leaves no command for its direction in the stack,
/// so its movement is no longer in force.
pub proof fn lemma_key_up_releases(s: Seq<MovementCommand>, key: Key, d: Direction)
    requires
        arrow_direction(key) == Some(d),
    ensures
        !stack_after(s, InputEvent::KeyUp { key, repeat: false }).contains(MovementCommand::Move(d)),
{
    lemma_without_removes(s, MovementCommand::Move(d));
}

/// Pressing and then releasing an arrow key that was not held gives back
/// the stack as it was.
pub proof fn lemma_press_release_undo(s: Seq<MovementCommand>, key: Key, d: Direction)
    requires
        arrow_direction(key) == Some(d),
        !s.contains(MovementCommand::Move(d)),
    ensures
        stack_after(
            stack_after(s, InputEvent::KeyDown { key, repeat: false }),
            InputEvent::KeyUp { key, repeat: false },
        ) == s,
{
    let c = MovementCommand::Move(d);
    let t = s.push(c);
    assert(t.drop_last() =~= s);
    lemma_without_absent(s, c);
}

/// Auto-repeated key events change nothing.
pub proof fn lemma_repeats_ignored(s: Seq<MovementCommand>, key: Key)
    ensures
        stack_after(s, InputEvent::KeyDown { key, repeat: true }) == s,
        stack_after(s, InputEvent::KeyUp { key, repeat: true }) == s,
{
}

/// A new enemy appears once every this many frames.
pub const SPAWN_PERIOD: u32 = 100u32;

/// The frame counter after one more frame, and whether that frame spawns
/// an enemy: the counter goes up by one, and on reaching the period it
/// spawns and starts again from 0.
pub open spec fn tick_step(t: int) -> (int, bool) {
    if t + 1 == SPAWN_PERIOD {
        (0, true)
    } else {
        (t + 1, false)
    }
}

/// The frame counter after `n` frames from the start.
pub open spec fn timer_after(n: nat) -> int
    decreases n,
{
    if n == 0 {
        0
    } else {
        tick_step(timer_after((n - 1) as nat)).0
    }
}

/// Counts frames and says on which ones a new enemy appears.
#[derive(Clone, Copy, Debug)]
pub struct SpawnTimer {
    frames: u32,
}

impl View for SpawnTimer {
    type V = int;

    closed spec fn view(&self) -> int {
        self.frames as int
    }
}

impl SpawnTimer {
    /// The counter lies below the period.
    pub open spec fn wf(&self) -> bool {
        0 <= self@ < SPAWN_PERIOD
    }

    /// A timer at the start of the game.
    pub fn new() -> (t: SpawnTimer)
        ensures
            t@ == 0,
            t.wf(),
    {
        SpawnTimer { frames: 0 }
    }

    /// Counts one frame; returns whether an enemy appears on it.
    pub fn tick(&mut self) -> (spawn: bool)
        requires
            old(self).wf(),
        ensures
            final(self).wf(),
            (final(self)@, spawn) == tick_step(old(self)@),
    {
        self.frames = self.frames + 1;
        if self.frames % SPAWN_PERIOD == 0 {
            self.frames = 0;
            true
        } else {
            false
        }
    }
}

/// From the start, the counter after `n` frames is `n % 100`, and frame
/// `n` spawns an enemy exactly when `n` is a multiple of 100.
pub proof fn lemma_spawn_every_period(n: nat)
    ensures
        timer_after(n) == (n as int) % (SPAWN_PERIOD as int),
        n > 0 ==> (tick_step(timer_after((n - 1) as nat)).1 <==> (n as int) % (SPAWN_PERIOD as int) == 0),
    decreases n,
{
    if n > 0 {
        lemma_spawn_every_period((n - 1) as nat);
    }
}

} // verus!
