use vstd::prelude::*;

verus! {

pub const CMD_RECAPTURE: u32 = 100;
pub const CMD_COPY: u32 = 101;
pub const CMD_FIT: u32 = 102;
pub const CMD_RESTORE_ONSCREEN: u32 = 103;
pub const CMD_ALWAYS_ON_TOP: u32 = 104;
pub const CMD_CLOSE: u32 = 105;
pub const CMD_EXIT_APP: u32 = 106;

pub const CMD_ZOOM_25: u32 = 125;
pub const CMD_ZOOM_50: u32 = 150;
pub const CMD_ZOOM_75: u32 = 175;
pub const CMD_ZOOM_100: u32 = 200;
pub const CMD_ZOOM_150: u32 = 250;
pub const CMD_ZOOM_200: u32 = 300;

/// A command chosen from a pinned image's context menu.
#[derive(Clone, Copy, Debug, PartialEq, Eq, Structural)]
pub enum MenuCommand {
    Recapture,
    Copy,
    Fit,
    RestoreOnscreen,
    AlwaysOnTop,
    Close,
    ExitApp,
    /// Zoom to the given percentage of the captured size.
    Zoom(u32),
}

/// The zoom levels the menu offers, in percent.
pub open spec fn is_zoom_level(percent: int) -> bool {
    percent == 25 || percent == 50 || percent == 75 || percent == 100 || percent == 150 || percent
        == 200
}

/// The command is one the menu offers.
pub open spec fn offered(command: MenuCommand) -> bool {
    match command {
        MenuCommand::Zoom(percent) => is_zoom_level(percent as int),
        _ => true,
    }
}

/// Menu item identifier of a command; a zoom level's identifier is the
/// percentage plus 100.
pub open spec fn command_id(command: MenuCommand) -> int {
    match command {
        MenuCommand::Recapture => CMD_RECAPTURE as int,
        MenuCommand::Copy => CMD_COPY as int,
        MenuCommand::Fit => CMD_FIT as int,
        MenuCommand::RestoreOnscreen => CMD_RESTORE_ONSCREEN as int,
        MenuCommand::AlwaysOnTop => CMD_ALWAYS_ON_TOP as int,
        MenuCommand::Close => CMD_CLOSE as int,
        MenuCommand::ExitApp => CMD_EXIT_APP as int,
        MenuCommand::Zoom(percent) => percent + 100,
    }
}

impl MenuCommand {
    /// The menu item identifier of an offered command.
    pub fn id(self) -> (id: u32)
        requires
            offered(self),
        ensures
            id == command_id(self),
            self == MenuCommand::Fit ==> id == CMD_FIT,
            self == MenuCommand::RestoreOnscreen ==> id == CMD_RESTORE_ONSCREEN,
            self matches MenuCommand::Zoom(p) ==> id == p + 100,
    {
        match self {
            MenuCommand::Recapture => CMD_RECAPTURE,
            MenuCommand::Copy => CMD_COPY,
            MenuCommand::Fit => CMD_FIT,
            MenuCommand::RestoreOnscreen => CMD_RESTORE_ONSCREEN,
            MenuCommand::AlwaysOnTop => CMD_ALWAYS_ON_TOP,
            MenuCommand::Close => CMD_CLOSE,
            MenuCommand::ExitApp => CMD_EXIT_APP,
            MenuCommand::Zoom(percent) => percent + 100,
        }
    }

    /// The command a menu item identifier stands for; `None` for anything
    /// else (including 0, which a dismissed menu returns).
    pub fn from_id(id: u32) -> (command: Option<MenuCommand>)
        ensures
            command matches Some(c) ==> offered(c) && command_id(c) == id,
            id == CMD_RECAPTURE ==> command == Some(MenuCommand::Recapture),
            id == CMD_COPY ==> command == Some(MenuCommand::Copy),
            id == CMD_FIT ==> command == Some(MenuCommand::Fit),
            id == CMD_RESTORE_ONSCREEN ==> command == Some(MenuCommand::RestoreOnscreen),
            id == CMD_ALWAYS_ON_TOP ==> command == Some(MenuCommand::AlwaysOnTop),
            id == CMD_CLOSE ==> command == Some(MenuCommand::Close),
            id == CMD_EXIT_APP ==> command == Some(MenuCommand::ExitApp),
            id == CMD_ZOOM_25 ==> command == Some(MenuCommand::Zoom(25)),
            id == CMD_ZOOM_50 ==> command == Some(MenuCommand::Zoom(50)),
            id == CMD_ZOOM_75 ==> command == Some(MenuCommand::Zoom(75)),
            id == CMD_ZOOM_100 ==> command == Some(MenuCommand::Zoom(100)),
            id == CMD_ZOOM_150 ==> command == Some(MenuCommand::Zoom(150)),
            id == CMD_ZOOM_200 ==> command == Some(MenuCommand::Zoom(200)),
            command.is_none() <==> !(exists|c: MenuCommand| offered(c) && command_id(c) == id),
    {
        let command = if id == CMD_RECAPTURE {
            Some(MenuCommand::Recapture)
        } else if id == CMD_COPY {
            Some(MenuCommand::Copy)
        } else if id == CMD_FIT {
            Some(MenuCommand::Fit)
        } else if id == CMD_RESTORE_ONSCREEN {
            Some(MenuCommand::RestoreOnscreen)
        } else if id == CMD_ALWAYS_ON_TOP {
            Some(MenuCommand::AlwaysOnTop)
        } else if id == CMD_CLOSE {
            Some(MenuCommand::Close)
        } else if id == CMD_EXIT_APP {
            Some(MenuCommand::ExitApp)
        } else if id == CMD_ZOOM_25 {
            Some(MenuCommand::Zoom(25))
        } else if id == CMD_ZOOM_50 {
            Some(MenuCommand::Zoom(50))
        } else if id == CMD_ZOOM_75 {
            Some(MenuCommand::Zoom(75))
        } else if id == CMD_ZOOM_100 {
            Some(MenuCommand::Zoom(100))
        } else if id == CMD_ZOOM_150 {
            Some(MenuCommand::Zoom(150))
        } else if id == CMD_ZOOM_200 {
            Some(MenuCommand::Zoom(200))
        } else {
            None
        };
        proof {
            if command.is_some() {
                let c = command.unwrap();
                assert(offered(c) && command_id(c) == id);
            } else {
                assert forall|c: MenuCommand| offered(c) implies command_id(c) != id by {
                    match c {
                        MenuCommand::Zoom(p) => {},
                        _ => {},
                    }
                }
            }
        }
        command
    }
}

/// Each command is identified by the constant named for it, and each zoom
/// level by its percentage plus 100 (`CMD_ZOOM_25` is 125, ..., `CMD_ZOOM_200`
/// is 300).
pub proof fn command_ids_are_the_named_constants()
    ensures
        command_id(MenuCommand::Recapture) == 100 && CMD_RECAPTURE == 100,
        command_id(MenuCommand::Copy) == 101 && CMD_COPY == 101,
        command_id(MenuCommand::Fit) == 102 && CMD_FIT == 102,
        command_id(MenuCommand::RestoreOnscreen) == 103 && CMD_RESTORE_ONSCREEN == 103,
        command_id(MenuCommand::AlwaysOnTop) == 104 && CMD_ALWAYS_ON_TOP == 104,
        command_id(MenuCommand::Close) == 105 && CMD_CLOSE == 105,
        command_id(MenuCommand::ExitApp) == 106 && CMD_EXIT_APP == 106,
        CMD_ZOOM_25 == 125 && CMD_ZOOM_50 == 150 && CMD_ZOOM_75 == 175,
        CMD_ZOOM_100 == 200 && CMD_ZOOM_150 == 250 && CMD_ZOOM_200 == 300,
        forall|p: u32| is_zoom_level(p as int) ==> #[trigger] command_id(MenuCommand::Zoom(p)) == p + 100,
{
}

/// Distinct offered commands have distinct identifiers, so decoding an
/// identifier gives back the command it was made from.
pub proof fn command_ids_are_distinct(a: MenuCommand, b: MenuCommand)
    requires
        offered(a),
        offered(b),
        command_id(a) == command_id(b),
    ensures
        a == b,
{
}

} // verus!
