use lynix_badge::blinky::BLINK_HALF_PERIOD_MS;
use lynix_badge::menu::MenuModel;
use lynix_badge::navigator::{
    Navigator, ScreenId, MENU_TICK_PERIOD_MS, NOT_FOUND_DWELL_MS, TICK_PERIOD_MS,
};
use lynix_badge::{Buttons, ProgramState};

fn badge_items() -> Vec<String> {
    vec![
        "Lynix Badge".to_string(),
        "CCNB".to_string(),
        "Socials + QR".to_string(),
        "Device Info".to_string(),
        "Blinky".to_string(),
        "DEFCON Furs".to_string(),
        "Cryptography".to_string(),
        "Settings".to_string(),
    ]
}

fn nav_in(program: ProgramState) -> Navigator {
    Navigator::new(MenuModel::new(badge_items()), program)
}

fn quiet() -> Buttons {
    Buttons::released()
}

fn press_b() -> Buttons {
    Buttons { up: false, down: false, a: false, b: true }
}

fn press_a() -> Buttons {
    Buttons { up: false, down: false, a: true, b: false }
}

fn press_down() -> Buttons {
    Buttons { up: false, down: true, a: false, b: false }
}

#[test]
fn b_returns_to_menu_from_every_program() {
    for program in [
        ProgramState::Menu,
        ProgramState::Lynix,
        ProgramState::Ccnb,
        ProgramState::Socials,
        ProgramState::Info,
        ProgramState::Blinky,
        ProgramState::NotFound,
    ] {
        let mut nav = nav_in(program);
        let fx = nav.tick(press_b());
        assert_eq!(nav.program, ProgramState::Menu);
        assert_eq!(fx.draw, Some(ScreenId::MenuScreen));
    }
}

#[test]
fn a_in_menu_launches_the_selected_program() {
    let mut nav = nav_in(ProgramState::Menu);
    for _ in 0..4 {
        nav.tick(press_down());
    }
    assert_eq!(nav.menu.selected_index, 4);
    let fx = nav.tick(press_a());
    assert_eq!(nav.program, ProgramState::Blinky);
    // The launched program's screen goes up on the next tick.
    assert_eq!(fx.draw, None);
    let fx2 = nav.tick(quiet());
    assert_eq!(fx2.draw, Some(ScreenId::BlinkyScreen));
}

#[test]
fn a_on_an_unbound_index_goes_to_not_found() {
    let mut nav = nav_in(ProgramState::Menu);
    for _ in 0..5 {
        nav.tick(press_down());
    }
    assert_eq!(nav.menu.selected_index, 5);
    nav.tick(press_a());
    assert_eq!(nav.program, ProgramState::NotFound);
}

#[test]
fn not_found_dwells_then_returns_to_menu_without_input() {
    let mut nav = nav_in(ProgramState::NotFound);
    let fx = nav.tick(quiet());
    assert_eq!(fx.draw, Some(ScreenId::ErrorScreen));
    assert_eq!(fx.next_tick_ms, NOT_FOUND_DWELL_MS);
    assert_eq!(nav.program, ProgramState::NotFound);
    let fx2 = nav.tick(quiet());
    assert_eq!(nav.program, ProgramState::Menu);
    assert_eq!(fx2.draw, None);
}

#[test]
fn lynix_cycle_swaps_at_ten_and_resets_at_twenty() {
    let mut nav = nav_in(ProgramState::Lynix);
    let fx = nav.tick(quiet());
    assert_eq!(fx.draw, Some(ScreenId::LynixScreen));
    assert_eq!(fx.next_tick_ms, TICK_PERIOD_MS);
    for tick in 2..10 {
        let fx = nav.tick(quiet());
        assert_eq!(fx.draw, None, "no redraw expected on tick {tick}");
        assert_eq!(fx.led, None);
    }
    let fx10 = nav.tick(quiet());
    assert_eq!(fx10.draw, Some(ScreenId::SocialsScreen));
    assert_eq!(fx10.led, Some(true));
    for _ in 11..20 {
        let fx = nav.tick(quiet());
        assert_eq!(fx.draw, None);
        assert_eq!(fx.led, None);
    }
    let fx20 = nav.tick(quiet());
    assert_eq!(fx20.led, Some(false));
    assert_eq!(fx20.draw, None);
    // The cycle starts over: the program's own screen is due again.
    let fx21 = nav.tick(quiet());
    assert_eq!(fx21.draw, Some(ScreenId::LynixScreen));
}

#[test]
fn blinky_toggles_low_high_low_at_the_half_period() {
    let mut nav = nav_in(ProgramState::Blinky);
    assert!(!nav.led_level);
    let fx1 = nav.tick(quiet());
    assert_eq!(fx1.draw, Some(ScreenId::BlinkyScreen));
    assert_eq!(fx1.led, Some(true));
    assert_eq!(fx1.next_tick_ms, BLINK_HALF_PERIOD_MS);
    let fx2 = nav.tick(quiet());
    assert_eq!(fx2.led, Some(false));
    assert_eq!(fx2.next_tick_ms, BLINK_HALF_PERIOD_MS);
    let fx3 = nav.tick(quiet());
    assert_eq!(fx3.led, Some(true));
}

#[test]
fn unchanged_state_is_not_redrawn() {
    let mut nav = nav_in(ProgramState::Socials);
    let fx1 = nav.tick(quiet());
    assert_eq!(fx1.draw, Some(ScreenId::SocialsScreen));
    for _ in 0..5 {
        let fx = nav.tick(quiet());
        assert_eq!(fx.draw, None);
    }
}

#[test]
fn menu_redraws_only_when_the_selection_moves() {
    let mut nav = nav_in(ProgramState::Menu);
    let fx1 = nav.tick(quiet());
    assert_eq!(fx1.draw, Some(ScreenId::MenuScreen));
    let fx2 = nav.tick(quiet());
    assert_eq!(fx2.draw, None);
    let fx3 = nav.tick(press_down());
    assert_eq!(fx3.draw, Some(ScreenId::MenuScreen));
    let fx4 = nav.tick(Buttons { up: true, down: false, a: false, b: false });
    assert_eq!(fx4.draw, Some(ScreenId::MenuScreen));
    // A saturated press moves nothing and draws nothing.
    let fx5 = nav.tick(Buttons { up: true, down: false, a: false, b: false });
    assert_eq!(fx5.draw, None);
}

#[test]
fn menu_ticks_are_fast_and_program_ticks_slow() {
    let mut nav = nav_in(ProgramState::Menu);
    let fx = nav.tick(quiet());
    assert_eq!(fx.next_tick_ms, MENU_TICK_PERIOD_MS);
    let mut nav2 = nav_in(ProgramState::Info);
    let fx2 = nav2.tick(quiet());
    assert_eq!(fx2.next_tick_ms, TICK_PERIOD_MS);
}
