//! The navigation state machine and tick scheduler. One call of
//! [`Navigator::tick`] is one iteration of the foreground loop: it
//! takes the button sample for this tick and decides the next state,
//! what (if anything) must be drawn, any change of the output signal,
//! and how long the caller should wait before the next tick.
//!
//! Redraws are gated by a dirty flag (`screen_drawn`): a screen is
//! drawn on the tick after the transition that made it current and
//! then left alone, except the info screens' own periodic swap. The B
//! button is a global override, checked before any per-state logic:
//! its tick returns to the menu and does nothing else.

use vstd::prelude::*;

use crate::Buttons;
use crate::ProgramState;
use crate::blinky::BLINK_HALF_PERIOD_MS;
use crate::blinky::handle_blinky_program;
use crate::dispatch::launch_selected_program;
use crate::dispatch::spec_program_for_index;
use crate::menu::ITEMS_PER_PAGE;
use crate::menu::MenuModel;
use crate::menu::MenuView;
use crate::menu::spec_navigate;

verus! {

/// Tick period of the foreground loop while a program is current, in
/// milliseconds.
pub const TICK_PERIOD_MS: u32 = 1000;

/// Tick period while the menu is current: much shorter, to keep
/// navigation responsive.
pub const MENU_TICK_PERIOD_MS: u32 = 1;

/// How long the `NotFound` screen dwells before the machine returns to
/// the menu by itself, in milliseconds.
pub const NOT_FOUND_DWELL_MS: u32 = 2000;

/// Tick (counted from program entry) on which the info screens swap to
/// the socials screen and raise the output signal.
pub const CYCLE_SWAP_TICKS: u32 = 10;

/// Tick on which the info screens' cycle restarts: counter cleared,
/// program's own screen redrawn, output signal dropped.
pub const CYCLE_RESET_TICKS: u32 = 20;

/// A screen the caller can be asked to render (clear, draw, flush).
#[derive(Clone, Copy, Debug, PartialEq, Eq, Structural)]
pub enum ScreenId {
    MenuScreen,
    LynixScreen,
    CcnbScreen,
    SocialsScreen,
    InfoScreen,
    BlinkyScreen,
    ErrorScreen,
}

/// What one tick asks of the hardware: at most one screen to render,
/// at most one change of the output signal, and the wait before the
/// next tick.
#[derive(Clone, Copy, Debug, PartialEq, Eq)]
pub struct TickEffects {
    pub draw: Option<ScreenId>,
    pub led: Option<bool>,
    pub next_tick_ms: u32,
}

/// Mathematical image of a `Navigator`.
#[verifier::ext_equal]
pub ghost struct NavView {
    pub program: ProgramState,
    pub menu: MenuView,
    pub screen_drawn: bool,
    pub ticks: int,
    pub led: bool,
}

impl NavView {
    /// Well-formed: the menu is well-formed and the per-program tick
    /// counter has not yet reached the point where it is reset.
    pub open spec fn wf(self) -> bool {
        &&& self.menu.wf()
        &&& 0 <= self.ticks < CYCLE_RESET_TICKS as int
    }
}

/// One tick's outcome at the specification level.
pub ghost struct StepResult {
    pub nav: NavView,
    pub draw: Option<ScreenId>,
    pub led: Option<bool>,
    pub next_tick_ms: u32,
}

/// A menu tick without the B override: Up/Down move the (saturating)
/// selection, the page follows it, and an asserted A hands over to the
/// program the dispatch table binds to the new selection. The menu is
/// redrawn when it just became current or the selection moved.
pub open spec fn spec_step_menu(v: NavView, btns: Buttons) -> StepResult {
    let sel2 = spec_navigate(v.menu.selected, v.menu.items.len() as int, btns.up, btns.down);
    let menu2 = MenuView { items: v.menu.items, selected: sel2, page: sel2 / (ITEMS_PER_PAGE as int) };
    if btns.a {
        StepResult {
            nav: NavView {
                program: spec_program_for_index(sel2),
                menu: menu2,
                screen_drawn: false,
                ticks: 0,
                led: v.led,
            },
            draw: None,
            led: None,
            next_tick_ms: MENU_TICK_PERIOD_MS,
        }
    } else {
        StepResult {
            nav: NavView {
                program: ProgramState::Menu,
                menu: menu2,
                screen_drawn: true,
                ticks: v.ticks,
                led: v.led,
            },
            draw: if !v.screen_drawn || sel2 != v.menu.selected {
                Some(ScreenId::MenuScreen)
            } else {
                None
            },
            led: None,
            next_tick_ms: MENU_TICK_PERIOD_MS,
        }
    }
}

/// A tick of one of the cycling info screens (`base` is its own
/// screen). The screen is drawn once on entry; on the swap tick the
/// socials screen replaces it and the output signal goes high; on the
/// reset tick the counter clears, the signal drops, and the program's own
/// screen is due again.
pub open spec fn spec_step_cycling(v: NavView, base: ScreenId) -> StepResult {
    let t2 = v.ticks + 1;
    let entry_draw: Option<ScreenId> = if !v.screen_drawn { Some(base) } else { None };
    if t2 == CYCLE_SWAP_TICKS as int {
        StepResult {
            nav: NavView { screen_drawn: true, ticks: t2, led: true, ..v },
            draw: Some(ScreenId::SocialsScreen),
            led: Some(true),
            next_tick_ms: TICK_PERIOD_MS,
        }
    } else if t2 == CYCLE_RESET_TICKS as int {
        StepResult {
            nav: NavView { screen_drawn: false, ticks: 0, led: false, ..v },
            draw: entry_draw,
            led: Some(false),
            next_tick_ms: TICK_PERIOD_MS,
        }
    } else {
        StepResult {
            nav: NavView { screen_drawn: true, ticks: t2, ..v },
            draw: entry_draw,
            led: None,
            next_tick_ms: TICK_PERIOD_MS,
        }
    }
}

/// A tick of a static screen: drawn once on entry, then nothing.
pub open spec fn spec_step_static(v: NavView, screen: ScreenId) -> StepResult {
    StepResult {
        nav: NavView { screen_drawn: true, ..v },
        draw: if !v.screen_drawn { Some(screen) } else { None },
        led: None,
        next_tick_ms: TICK_PERIOD_MS,
    }
}

/// A tick of the blinking demo: its screen once on entry, and the
/// output signal inverted on every tick, paced at the half-period.
pub open spec fn spec_step_blinky(v: NavView) -> StepResult {
    StepResult {
        nav: NavView { screen_drawn: true, led: !v.led, ..v },
        draw: if !v.screen_drawn { Some(ScreenId::BlinkyScreen) } else { None },
        led: Some(!v.led),
        next_tick_ms: BLINK_HALF_PERIOD_MS,
    }
}

/// A `NotFound` tick: the error screen goes up once and dwells for the
/// fixed time; the tick after the dwell returns to the menu with no
/// input needed.
pub open spec fn spec_step_not_found(v: NavView) -> StepResult {
    if !v.screen_drawn {
        StepResult {
            nav: NavView { screen_drawn: true, ..v },
            draw: Some(ScreenId::ErrorScreen),
            led: None,
            next_tick_ms: NOT_FOUND_DWELL_MS,
        }
    } else {
        StepResult {
            nav: NavView { program: ProgramState::Menu, screen_drawn: false, ticks: 0, ..v },
            draw: None,
            led: None,
            next_tick_ms: MENU_TICK_PERIOD_MS,
        }
    }
}

/// One tick of the whole machine. An asserted B is a global override,
/// consuming the tick: back to the menu, menu redrawn, nothing else.
/// Otherwise the current program's own step applies.
pub open spec fn spec_step(v: NavView, btns: Buttons) -> StepResult {
    if btns.b {
        StepResult {
            nav: NavView { program: ProgramState::Menu, screen_drawn: true, ticks: 0, ..v },
            draw: Some(ScreenId::MenuScreen),
            led: None,
            next_tick_ms: MENU_TICK_PERIOD_MS,
        }
    } else {
        match v.program {
            ProgramState::Menu => spec_step_menu(v, btns),
            ProgramState::Lynix => spec_step_cycling(v, ScreenId::LynixScreen),
            ProgramState::Ccnb => spec_step_cycling(v, ScreenId::CcnbScreen),
            ProgramState::Socials => spec_step_static(v, ScreenId::SocialsScreen),
            ProgramState::Info => spec_step_static(v, ScreenId::InfoScreen),
            ProgramState::Blinky => spec_step_blinky(v),
            ProgramState::NotFound => spec_step_not_found(v),
        }
    }
}

/// The navigation state machine: the current program, the menu, the
/// dirty flag on the current screen, the per-program tick counter and
/// the last level given to the output signal.
pub struct Navigator {
    pub program: ProgramState,
    pub menu: MenuModel,
    pub screen_drawn: bool,
    pub ticks_in_program: u32,
    pub led_level: bool,
}

impl View for Navigator {
    type V = NavView;

    open spec fn view(&self) -> NavView {
        NavView {
            program: self.program,
            menu: self.menu@,
            screen_drawn: self.screen_drawn,
            ticks: self.ticks_in_program as int,
            led: self.led_level,
        }
    }
}

impl Navigator {
    /// A machine at boot: the given program current, nothing drawn yet,
    /// the tick counter cleared, the output signal low.
    pub fn new(menu: MenuModel, initial_program: ProgramState) -> (nav: Navigator)
        requires
            menu@.wf(),
        ensures
            nav@.wf(),
            nav@.program == initial_program,
            nav@.menu == menu@,
            !nav@.screen_drawn,
            nav@.ticks == 0,
            !nav@.led,
    {
        Navigator {
            program: initial_program,
            menu,
            screen_drawn: false,
            ticks_in_program: 0,
            led_level: false,
        }
    }

    /// One iteration of the foreground loop, for the button sample of
    /// this tick. The whole outcome equals `spec_step`; the trailing
    /// clauses state its load-bearing corollaries on their own.
    pub fn tick(&mut self, buttons: Buttons) -> (fx: TickEffects)
        requires
            old(self)@.wf(),
        ensures
            final(self)@.wf(),
            final(self)@ == spec_step(old(self)@, buttons).nav,
            fx.draw == spec_step(old(self)@, buttons).draw,
            fx.led == spec_step(old(self)@, buttons).led,
            fx.next_tick_ms == spec_step(old(self)@, buttons).next_tick_ms,
            // The menu items are compiled in; no tick ever changes them.
            final(self)@.menu.items == old(self)@.menu.items,
            // The selection always indexes an item, and the page is
            // always derived from it, never independently stale.
            0 <= final(self)@.menu.selected < final(self)@.menu.items.len(),
            final(self)@.menu.page == final(self)@.menu.selected / (ITEMS_PER_PAGE as int),
            // The B override wins unconditionally, from every state.
            buttons.b ==> final(self)@.program == ProgramState::Menu,
            // An asserted A in the menu hands over to exactly the
            // program the dispatch table binds to the new selection.
            (old(self)@.program == ProgramState::Menu && !buttons.b && buttons.a)
                ==> final(self)@.program == spec_program_for_index(spec_navigate(
                    old(self)@.menu.selected,
                    old(self)@.menu.items.len() as int,
                    buttons.up,
                    buttons.down,
                )),
            // Once the NotFound screen is up, the next tick returns to
            // the menu whatever the buttons say.
            (old(self)@.program == ProgramState::NotFound && old(self)@.screen_drawn)
                ==> final(self)@.program == ProgramState::Menu,
    {
        if buttons.b {
            self.program = ProgramState::Menu;
            self.screen_drawn = true;
            self.ticks_in_program = 0;
            return TickEffects {
                draw: Some(ScreenId::MenuScreen),
                led: None,
                next_tick_ms: MENU_TICK_PERIOD_MS,
            };
        }
        match self.program {
            ProgramState::Menu => {
                let first_draw = !self.screen_drawn;
                let moved = self.menu.handle_menu_program(buttons.up, buttons.down);
                match launch_selected_program(self.menu.selected_index, buttons.a) {
                    Some(next_program) => {
                        self.program = next_program;
                        self.screen_drawn = false;
                        self.ticks_in_program = 0;
                        TickEffects { draw: None, led: None, next_tick_ms: MENU_TICK_PERIOD_MS }
                    }
                    None => {
                        self.screen_drawn = true;
                        TickEffects {
                            draw: if first_draw || moved {
                                Some(ScreenId::MenuScreen)
                            } else {
                                None
                            },
                            led: None,
                            next_tick_ms: MENU_TICK_PERIOD_MS,
                        }
                    }
                }
            }
            ProgramState::Lynix => self.cycling_tick(ScreenId::LynixScreen),
            ProgramState::Ccnb => self.cycling_tick(ScreenId::CcnbScreen),
            ProgramState::Socials => self.static_tick(ScreenId::SocialsScreen),
            ProgramState::Info => self.static_tick(ScreenId::InfoScreen),
            ProgramState::Blinky => {
                let first_draw = !self.screen_drawn;
                self.screen_drawn = true;
                let next_level = handle_blinky_program(self.led_level);
                self.led_level = next_level;
                TickEffects {
                    draw: if first_draw { Some(ScreenId::BlinkyScreen) } else { None },
                    led: Some(next_level),
                    next_tick_ms: BLINK_HALF_PERIOD_MS,
                }
            }
            ProgramState::NotFound => {
                if !self.screen_drawn {
                    self.screen_drawn = true;
                    TickEffects {
                        draw: Some(ScreenId::ErrorScreen),
                        led: None,
                        next_tick_ms: NOT_FOUND_DWELL_MS,
                    }
                } else {
                    self.program = ProgramState::Menu;
                    self.screen_drawn = false;
                    self.ticks_in_program = 0;
                    TickEffects { draw: None, led: None, next_tick_ms: MENU_TICK_PERIOD_MS }
                }
            }
        }
    }

    /// One tick of a cycling info screen, per `spec_step_cycling`.
    fn cycling_tick(&mut self, base: ScreenId) -> (fx: TickEffects)
        requires
            old(self)@.wf(),
            old(self)@.program == ProgramState::Lynix || old(self)@.program == ProgramState::Ccnb,
        ensures
            final(self)@.wf(),
            final(self)@ == spec_step_cycling(old(self)@, base).nav,
            fx.draw == spec_step_cycling(old(self)@, base).draw,
            fx.led == spec_step_cycling(old(self)@, base).led,
            fx.next_tick_ms == spec_step_cycling(old(self)@, base).next_tick_ms,
    {
        let mut draw: Option<ScreenId> = if !self.screen_drawn { Some(base) } else { None };
        self.screen_drawn = true;
        self.ticks_in_program = self.ticks_in_program + 1;
        let mut led: Option<bool> = None;
        if self.ticks_in_program == CYCLE_SWAP_TICKS {
            draw = Some(ScreenId::SocialsScreen);
            self.led_level = true;
            led = Some(true);
        }
        if self.ticks_in_program == CYCLE_RESET_TICKS {
            self.ticks_in_program = 0;
            self.screen_drawn = false;
            self.led_level = false;
            led = Some(false);
        }
        TickEffects { draw, led, next_tick_ms: TICK_PERIOD_MS }
    }

    /// One tick of a static screen, per `spec_step_static`.
    fn static_tick(&mut self, screen: ScreenId) -> (fx: TickEffects)
        requires
            old(self)@.wf(),
        ensures
            final(self)@.wf(),
            final(self)@ == spec_step_static(old(self)@, screen).nav,
            fx.draw == spec_step_static(old(self)@, screen).draw,
            fx.led == spec_step_static(old(self)@, screen).led,
            fx.next_tick_ms == spec_step_static(old(self)@, screen).next_tick_ms,
    {
        let first_draw = !self.screen_drawn;
        self.screen_drawn = true;
        TickEffects {
            draw: if first_draw { Some(screen) } else { None },
            led: None,
            next_tick_ms: TICK_PERIOD_MS,
        }
    }
}

/// The machine after a whole sequence of ticks, applied in order.
pub open spec fn spec_run(v: NavView, presses: Seq<Buttons>) -> NavView
    decreases presses.len(),
{
    if presses.len() == 0 {
        v
    } else {
        spec_run(spec_step(v, presses[0]).nav, presses.drop_first())
    }
}

/// Law: one tick preserves well-formedness — the selection still
/// indexes an item, the page is still derived from it, the tick
/// counter is still below its reset — and never touches the items.
pub proof fn lemma_step_preserves_wf(v: NavView, btns: Buttons)
    requires
        v.wf(),
    ensures
        spec_step(v, btns).nav.wf(),
        spec_step(v, btns).nav.menu.items == v.menu.items,
{
}

/// Law: well-formedness is an invariant of the whole machine: any
/// sequence of ticks, with the buttons in any states, preserves it,
/// and the compiled-in items never change.
pub proof fn lemma_run_preserves_wf(v: NavView, presses: Seq<Buttons>)
    requires
        v.wf(),
    ensures
        spec_run(v, presses).wf(),
        spec_run(v, presses).menu.items == v.menu.items,
    decreases presses.len(),
{
    if presses.len() > 0 {
        lemma_step_preserves_wf(v, presses[0]);
        lemma_run_preserves_wf(spec_step(v, presses[0]).nav, presses.drop_first());
    }
}

/// Law: every draw has a cause. A tick asks for drawing only when the
/// current screen was not up yet, the B override or a moved selection
/// made it stale, or the cycling screens' swap tick came up.
pub proof fn lemma_draw_has_a_cause(v: NavView, btns: Buttons)
    requires
        v.wf(),
    ensures
        spec_step(v, btns).draw is Some ==> {
            ||| !v.screen_drawn
            ||| btns.b
            ||| (v.program == ProgramState::Menu && spec_navigate(
                v.menu.selected,
                v.menu.items.len() as int,
                btns.up,
                btns.down,
            ) != v.menu.selected)
            ||| ((v.program == ProgramState::Lynix || v.program == ProgramState::Ccnb)
                && v.ticks + 1 == CYCLE_SWAP_TICKS as int)
        },
{
}

/// Law: redraw is gated by the dirty flag. On a tick with every button
/// released and the current screen already drawn, the step asks for no
/// drawing — except the cycling info screens' own swap tick, which
/// intentionally refreshes the display.
pub proof fn lemma_draw_gated_by_dirty_flag(v: NavView, btns: Buttons)
    requires
        v.wf(),
        v.screen_drawn,
        btns.spec_none(),
    ensures
        (v.program == ProgramState::Lynix || v.program == ProgramState::Ccnb)
            ==> (spec_step(v, btns).draw is Some <==> v.ticks + 1 == CYCLE_SWAP_TICKS as int),
        !(v.program == ProgramState::Lynix || v.program == ProgramState::Ccnb)
            ==> spec_step(v, btns).draw is None,
{
}

/// Law: the `NotFound` dwell needs no input. From `NotFound`, two
/// ticks with every button released put the machine back in the menu:
/// the first (at worst) puts the error screen up, the second ends the
/// dwell.
pub proof fn lemma_not_found_returns_to_menu(v: NavView, btns1: Buttons, btns2: Buttons)
    requires
        v.wf(),
        v.program == ProgramState::NotFound,
        btns1.spec_none(),
        btns2.spec_none(),
    ensures
        spec_step(spec_step(v, btns1).nav, btns2).nav.program == ProgramState::Menu,
{
}

} // verus!
