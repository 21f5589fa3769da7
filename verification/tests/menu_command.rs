use rustpture::command::launch_action;
use rustpture::command::Command;
use rustpture::command::Launch;
use rustpture::menu::MenuCommand;
use rustpture::menu::CMD_CLOSE;
use rustpture::menu::CMD_COPY;
use rustpture::menu::CMD_ZOOM_150;
use rustpture::menu::CMD_ZOOM_25;

fn args(list: &[&str]) -> Vec<String> {
    list.iter().map(|s| s.to_string()).collect()
}

#[test]
fn menu_ids_decode() {
    assert_eq!(MenuCommand::from_id(CMD_COPY), Some(MenuCommand::Copy));
    assert_eq!(MenuCommand::from_id(CMD_CLOSE), Some(MenuCommand::Close));
    assert_eq!(MenuCommand::from_id(CMD_ZOOM_25), Some(MenuCommand::Zoom(25)));
    assert_eq!(MenuCommand::from_id(CMD_ZOOM_150), Some(MenuCommand::Zoom(150)));
    assert_eq!(MenuCommand::from_id(0), None);
    assert_eq!(MenuCommand::from_id(107), None);
    assert_eq!(MenuCommand::from_id(225), None);
}

#[test]
fn menu_ids_round_trip() {
    let all = [
        MenuCommand::Recapture,
        MenuCommand::Copy,
        MenuCommand::Fit,
        MenuCommand::RestoreOnscreen,
        MenuCommand::AlwaysOnTop,
        MenuCommand::Close,
        MenuCommand::ExitApp,
        MenuCommand::Zoom(25),
        MenuCommand::Zoom(50),
        MenuCommand::Zoom(75),
        MenuCommand::Zoom(100),
        MenuCommand::Zoom(150),
        MenuCommand::Zoom(200),
    ];
    for c in all {
        assert_eq!(MenuCommand::from_id(c.id()), Some(c));
    }
    assert_eq!(MenuCommand::Zoom(200).id(), 300);
    assert_eq!(MenuCommand::Recapture.id(), 100);
}

#[test]
fn command_line_defaults_to_capture() {
    assert_eq!(Command::parse(&args(&[])), Command::Capture);
    assert_eq!(Command::parse(&args(&["--unknown"])), Command::Capture);
}

#[test]
fn command_line_flags() {
    assert_eq!(Command::parse(&args(&["--background"])), Command::Background);
    assert_eq!(Command::parse(&args(&["--resident"])), Command::Background);
    assert_eq!(Command::parse(&args(&["--quit"])), Command::Quit);
    assert_eq!(Command::parse(&args(&["--capture"])), Command::Capture);
}

#[test]
fn last_flag_wins() {
    assert_eq!(Command::parse(&args(&["--quit", "--background", "x"])), Command::Background);
    assert_eq!(Command::parse(&args(&["--background", "--capture"])), Command::Capture);
}

#[test]
fn launch_decisions() {
    assert_eq!(launch_action(Command::Background, true), Launch::LeaveResident);
    assert_eq!(launch_action(Command::Quit, true), Launch::CloseResident);
    assert_eq!(launch_action(Command::Capture, true), Launch::ForwardCapture);
    assert_eq!(launch_action(Command::Quit, false), Launch::Exit);
    assert_eq!(
        launch_action(Command::Capture, false),
        Launch::StartResident { begin_capture: true }
    );
    assert_eq!(
        launch_action(Command::Background, false),
        Launch::StartResident { begin_capture: false }
    );
}
