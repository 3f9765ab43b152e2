use demo_sqlite::config::{
    config_from_parsed, open_file_if_exists, rc_search_after_open, rc_search_start, Color, ColorPair, Config,
    OpenOutcome, RcLocation, RcStep, Style, Theme, BOLD, REVERSED,
};
use demo_sqlite::error::Error;
use demo_sqlite::logging::RawModeWriter;
use demo_sqlite::screen::{Progress, ScreenLatch, SetupProgress, SetupStep, TeardownStep};

#[test]
fn bare_line_feeds_get_carriage_returns() {
    assert_eq!(RawModeWriter::to_raw_mode(b"a\nb\r\nc\n"), b"a\r\nb\r\nc\r\n".to_vec());
    assert_eq!(RawModeWriter::to_raw_mode(b"\n\n"), b"\r\n\r\n".to_vec());
    assert_eq!(RawModeWriter::to_raw_mode(b""), Vec::<u8>::new());
    assert_eq!(RawModeWriter::to_raw_mode(b"no newline"), b"no newline".to_vec());
    assert_eq!(RawModeWriter::to_raw_mode(b"\r\r\n\n"), b"\r\r\n\r\n".to_vec());
}

#[test]
fn converting_twice_is_converting_once() {
    let once = RawModeWriter::to_raw_mode(b"x\ny\r\n\nz");
    let twice = RawModeWriter::to_raw_mode(&once);
    assert_eq!(once, twice);
}

#[test]
fn scroll_region_for_a_terminal() {
    assert_eq!(RawModeWriter::scroll_region(24), b"\x1b[13;24r\x1b[24;1H".to_vec());
    assert_eq!(RawModeWriter::scroll_region(25), b"\x1b[13;25r\x1b[25;1H".to_vec());
    assert_eq!(RawModeWriter::scroll_region(0), b"\x1b[1;0r\x1b[0;1H".to_vec());
    assert_eq!(RawModeWriter::scroll_region(u16::MAX), b"\x1b[32768;65535r\x1b[65535;1H".to_vec());
}

#[test]
fn frame_uses_measured_or_default_height() {
    let w = RawModeWriter;
    assert_eq!(w.frame(b"hi\n", Some((80, 40))), b"\x1b[21;40r\x1b[40;1Hhi\r\n".to_vec());
    assert_eq!(w.frame(b"hi\n", None), b"\x1b[13;24r\x1b[24;1Hhi\r\n".to_vec());
}

#[test]
fn opening_runs_all_steps_then_sets_the_flag() {
    let mut latch = ScreenLatch::new(false);
    let mut step = latch.begin_open().unwrap();
    let mut order = vec![step];
    loop {
        match latch.setup_step_done(step, Ok(())) {
            SetupProgress::Next(s) => {
                assert!(!latch.is_open());
                step = s;
                order.push(s);
            }
            SetupProgress::Done => break,
            SetupProgress::Failed(..) => panic!("no step failed"),
        }
    }
    assert!(latch.is_open());
    assert_eq!(
        order,
        vec![
            SetupStep::EnableRawMode,
            SetupStep::EnterAlternateScreen,
            SetupStep::EnableMouseCapture,
            SetupStep::CreateTerminal
        ]
    );
    assert!(matches!(latch.begin_open(), Err(Error::ScreenAlreadyOpen)));
}

#[test]
fn a_failed_step_keeps_the_flag_clear() {
    let mut latch = ScreenLatch::new(false);
    match latch.setup_step_done(SetupStep::EnterAlternateScreen, Err(Error::Io("tty".to_string()))) {
        SetupProgress::Failed(Error::Io(m), undo) => {
            assert_eq!(m, "tty");
            assert_eq!(undo, vec![TeardownStep::DisableRawMode]);
        }
        _ => panic!("expected the step's error"),
    }
    assert!(!latch.is_open());
    assert!(matches!(latch.begin_open(), Ok(SetupStep::EnableRawMode)));
}

#[test]
fn closing_clears_the_flag_only_after_every_step() {
    let mut latch = ScreenLatch::new(true);
    let first = latch.begin_close();
    assert_eq!(first, TeardownStep::DisableRawMode);
    assert!(matches!(latch.teardown_step_done(first, Ok(())), Progress::Next(TeardownStep::DisableMouseCapture)));
    assert!(matches!(
        latch.teardown_step_done(TeardownStep::DisableMouseCapture, Ok(())),
        Progress::Next(TeardownStep::LeaveAlternateScreen)
    ));
    assert!(latch.is_open());
    assert!(matches!(latch.teardown_step_done(TeardownStep::LeaveAlternateScreen, Ok(())), Progress::Done));
    assert!(!latch.is_open());

    let mut stuck = ScreenLatch::new(true);
    assert!(matches!(
        stuck.teardown_step_done(TeardownStep::DisableRawMode, Err(Error::Io("x".to_string()))),
        Progress::Failed(_)
    ));
    assert!(stuck.is_open());
}

#[test]
fn builtin_theme_colors() {
    let t = Theme::builtin();
    let s = t.default();
    assert_eq!(s.bg, Some(Color::Black));
    assert_eq!(s.fg, Some(Color::LightYellow));
    assert_eq!(t.highlight().bg, Some(Color::LightYellow));
    assert_eq!(t.highlight().fg, Some(Color::Black));
    assert_eq!(t.border().bg, Some(Color::Black));
    assert_eq!(t.border().fg, Some(Color::LightCyan));
    assert_eq!(t.border_highlight().bg, Some(Color::LightYellow));
    assert_eq!(t.border_highlight().fg, Some(Color::Cyan));
    assert_eq!(t.error().bg, Some(Color::LightYellow));
    assert_eq!(t.error().fg, Some(Color::LightRed));
    assert_eq!(s.add_modifier, 0);
    assert_eq!(Config::builtin().theme, t);
}

#[test]
fn configured_colors_win() {
    let mut t = Theme::builtin();
    t.border = ColorPair { bg: Some(Color::Rgb(1, 2, 3)), fg: None };
    t.error = ColorPair { bg: None, fg: Some(Color::Indexed(9)) };
    assert_eq!(t.border().bg, Some(Color::Rgb(1, 2, 3)));
    assert_eq!(t.border().fg, Some(Color::LightCyan));
    assert_eq!(t.error().bg, Some(Color::LightYellow));
    assert_eq!(t.error().fg, Some(Color::Indexed(9)));
}

#[test]
fn modifiers_are_added_and_no_longer_removed() {
    let s = Style { fg: None, bg: None, add_modifier: 0, sub_modifier: BOLD | REVERSED };
    let b = s.add_modifier(BOLD);
    assert_eq!(b.add_modifier, BOLD);
    assert_eq!(b.sub_modifier, REVERSED);
    let n = Style::new().fg(Color::Red).bg(Color::White);
    assert_eq!(n.fg, Some(Color::Red));
    assert_eq!(n.bg, Some(Color::White));
}

#[test]
fn candidate_files() {
    assert!(matches!(open_file_if_exists(OpenOutcome::Opened), Ok(true)));
    assert!(matches!(open_file_if_exists(OpenOutcome::NotFound), Ok(false)));
    assert!(matches!(open_file_if_exists(OpenOutcome::PermissionDenied), Ok(false)));
    let e = open_file_if_exists(OpenOutcome::Failed("is a directory".to_string())).unwrap_err();
    assert_eq!(e.message(), "Found .steelsaferc but cannot open: is a directory");
}

#[test]
fn parse_errors_are_not_passed_over() {
    let c = Config::builtin();
    assert!(matches!(config_from_parsed(Ok(c)), Ok(_)));
    let e = config_from_parsed(Err("trailing comma".to_string())).unwrap_err();
    assert_eq!(e.message(), "Invalid .steelsaferc: trailing comma");
}

#[test]
fn a_failed_step_undoes_the_steps_before_it() {
    let undo_for = |step| {
        let mut latch = ScreenLatch::new(false);
        match latch.setup_step_done(step, Err(Error::Io("x".to_string()))) {
            SetupProgress::Failed(_, undo) => {
                assert!(!latch.is_open());
                undo
            }
            _ => panic!("expected a failure"),
        }
    };
    assert_eq!(undo_for(SetupStep::EnableRawMode), Vec::<TeardownStep>::new());
    assert_eq!(
        undo_for(SetupStep::EnableMouseCapture),
        vec![TeardownStep::DisableRawMode, TeardownStep::LeaveAlternateScreen]
    );
    assert_eq!(
        undo_for(SetupStep::CreateTerminal),
        vec![
            TeardownStep::DisableRawMode,
            TeardownStep::DisableMouseCapture,
            TeardownStep::LeaveAlternateScreen
        ]
    );
}

#[test]
fn configuration_search_order() {
    assert!(matches!(rc_search_start(true, true), RcStep::Open(RcLocation::ConfigDir)));
    assert!(matches!(rc_search_start(false, true), RcStep::Open(RcLocation::HomeDir)));
    assert!(matches!(rc_search_start(false, false), RcStep::BuiltIn));
    assert!(matches!(
        rc_search_after_open(RcLocation::ConfigDir, OpenOutcome::Opened, true),
        RcStep::Read(RcLocation::ConfigDir)
    ));
    assert!(matches!(
        rc_search_after_open(RcLocation::ConfigDir, OpenOutcome::NotFound, true),
        RcStep::Open(RcLocation::HomeDir)
    ));
    assert!(matches!(
        rc_search_after_open(RcLocation::ConfigDir, OpenOutcome::PermissionDenied, false),
        RcStep::BuiltIn
    ));
    assert!(matches!(rc_search_after_open(RcLocation::HomeDir, OpenOutcome::NotFound, true), RcStep::BuiltIn));
    assert!(matches!(
        rc_search_after_open(RcLocation::HomeDir, OpenOutcome::Opened, true),
        RcStep::Read(RcLocation::HomeDir)
    ));
    match rc_search_after_open(RcLocation::ConfigDir, OpenOutcome::Failed("busy".to_string()), true) {
        RcStep::Fail(e) => assert_eq!(e.message(), "Found .steelsaferc but cannot open: busy"),
        _ => panic!("expected a failure"),
    }
}

#[test]
fn default_configuration_is_builtin() {
    assert_eq!(Config::default(), Config::builtin());
    assert_eq!(ColorPair::default(), ColorPair { bg: None, fg: None });
}
