use vstd::prelude::*;

verus! {

/// What the program was asked to do on its command line.
#[derive(Clone, Copy, Debug, PartialEq, Eq, Structural)]
pub enum Command {
    /// Start a range selection (the default).
    Capture,
    /// Stay resident without starting a selection.
    Background,
    /// Close the resident instance.
    Quit,
}

/// The command a single argument names, if any.
pub open spec fn argument_command(arg: Seq<char>) -> Option<Command> {
    if arg == "--background"@ || arg == "--resident"@ {
        Some(Command::Background)
    } else if arg == "--capture"@ {
        Some(Command::Capture)
    } else if arg == "--quit"@ {
        Some(Command::Quit)
    } else {
        None
    }
}

/// The command given by a list of arguments: the last recognised one wins;
/// unknown arguments are ignored; `Capture` when none is recognised.
pub open spec fn command_of(args: Seq<Seq<char>>) -> Command
    decreases args.len(),
{
    if args.len() == 0 {
        Command::Capture
    } else {
        match argument_command(args.last()) {
            Some(c) => c,
            None => command_of(args.drop_last()),
        }
    }
}

/// The characters of each argument.
pub open spec fn argument_views(args: Seq<String>) -> Seq<Seq<char>> {
    args.map_values(|a: String| a@)
}

fn is_flag(arg: &String, flag: &str) -> (b: bool)
    ensures
        b == (arg@ == flag@),
{
    let owned = flag.to_owned();
    *arg == owned
}

impl Command {
    /// The command given by the arguments that follow the program name.
    pub fn parse(args: &Vec<String>) -> (command: Command)
        ensures
            command == command_of(argument_views(args@)),
    {
        let ghost views = argument_views(args@);
        let mut command = Command::Capture;
        let mut i: usize = 0;
        assert(views.take(0) =~= Seq::<Seq<char>>::empty());
        while i < args.len()
            invariant
                i <= args.len(),
                views == argument_views(args@),
                command == command_of(views.take(i as int)),
            decreases args.len() - i,
        {
            let arg = &args[i];
            if is_flag(arg, "--background") || is_flag(arg, "--resident") {
                command = Command::Background;
            } else if is_flag(arg, "--capture") {
                command = Command::Capture;
            } else if is_flag(arg, "--quit") {
                command = Command::Quit;
            }
            assert(views.take(i + 1).drop_last() =~= views.take(i as int));
            assert(views.take(i + 1).last() == args@[i as int]@);
            i = i + 1;
        }
        assert(views.take(args.len() as int) =~= views);
        command
    }
}

/// What a starting process does.
#[derive(Clone, Copy, Debug, PartialEq, Eq, Structural)]
pub enum Launch {
    /// Another instance is resident and nothing is asked of it: exit.
    LeaveResident,
    /// Ask the resident instance to close, then exit.
    CloseResident,
    /// Let the resident instance take the foreground and start a
    /// selection, then exit.
    ForwardCapture,
    /// No instance is resident and none is wanted: exit.
    Exit,
    /// Become the resident instance, starting a selection right away or not.
    StartResident { begin_capture: bool },
}

/// The start-up decision for `command`, given whether another instance is
/// already resident.
pub open spec fn launch_for(command: Command, resident_running: bool) -> Launch {
    if resident_running {
        match command {
            Command::Background => Launch::LeaveResident,
            Command::Quit => Launch::CloseResident,
            Command::Capture => Launch::ForwardCapture,
        }
    } else {
        match command {
            Command::Quit => Launch::Exit,
            Command::Capture => Launch::StartResident { begin_capture: true },
            Command::Background => Launch::StartResident { begin_capture: false },
        }
    }
}

/// The start-up decision for `command`, given whether another instance is
/// already resident. A second process never stays: it hands the command to
/// the resident one.
pub fn launch_action(command: Command, resident_running: bool) -> (launch: Launch)
    ensures
        launch == launch_for(command, resident_running),
{
    if resident_running {
        match command {
            Command::Background => Launch::LeaveResident,
            Command::Quit => Launch::CloseResident,
            Command::Capture => Launch::ForwardCapture,
        }
    } else {
        match command {
            Command::Quit => Launch::Exit,
            Command::Capture => Launch::StartResident { begin_capture: true },
            Command::Background => Launch::StartResident { begin_capture: false },
        }
    }
}

/// The command line is read left to right and the last recognised flag
/// decides: appending `--quit` gives `Quit`, `--background` or `--resident`
/// gives `Background`, `--capture` gives `Capture`, and any other argument
/// leaves the command as it was; no arguments mean `Capture`.
pub proof fn last_recognised_flag_wins(args: Seq<Seq<char>>, arg: Seq<char>)
    ensures
        command_of(Seq::empty()) == Command::Capture,
        command_of(args.push("--quit"@)) == Command::Quit,
        command_of(args.push("--background"@)) == Command::Background,
        command_of(args.push("--resident"@)) == Command::Background,
        command_of(args.push("--capture"@)) == Command::Capture,
        arg != "--quit"@ && arg != "--background"@ && arg != "--resident"@ && arg
            != "--capture"@ ==> command_of(args.push(arg)) == command_of(args),
{
    reveal_strlit("--quit");
    reveal_strlit("--background");
    reveal_strlit("--resident");
    reveal_strlit("--capture");
    assert("--quit"@.len() == 6 && "--capture"@.len() == 9);
    assert("--resident"@.len() == 10 && "--background"@.len() == 12);
    assert("--quit"@ != "--background"@ && "--quit"@ != "--resident"@ && "--quit"@
        != "--capture"@);
    assert("--capture"@ != "--background"@ && "--capture"@ != "--resident"@);
    assert(args.push("--quit"@).drop_last() =~= args);
    assert(args.push(arg).drop_last() =~= args);
    assert(args.push("--background"@).drop_last() =~= args);
    assert(args.push("--resident"@).drop_last() =~= args);
    assert(args.push("--capture"@).drop_last() =~= args);
}

/// A resident instance is handed exactly the command given: `Quit` closes
/// it, `Capture` starts a selection in it, `Background` leaves it alone.
/// Without one, `Quit` starts nothing and the other commands start the
/// resident instance, which begins a selection only for `Capture`.
pub proof fn launch_hands_over_the_command(command: Command)
    ensures
        (launch_for(command, true) == Launch::CloseResident) <==> command == Command::Quit,
        (launch_for(command, true) == Launch::ForwardCapture) <==> command == Command::Capture,
        (launch_for(command, true) == Launch::LeaveResident) <==> command == Command::Background,
        (launch_for(command, false) == Launch::Exit) <==> command == Command::Quit,
        (launch_for(command, false) == Launch::StartResident { begin_capture: true }) <==> command
            == Command::Capture,
        (launch_for(command, false) == Launch::StartResident { begin_capture: false })
            <==> command == Command::Background,
{
}

/// Only one instance stays resident: when one is already running, the
/// starting process never becomes resident itself; `Quit` never starts one;
/// a selection starts in a new resident instance exactly for `Capture`.
pub proof fn single_resident_instance(command: Command, resident_running: bool)
    ensures
        resident_running ==> !(launch_for(command, resident_running) is StartResident),
        command == Command::Quit ==> !(launch_for(command, resident_running) is StartResident),
        launch_for(command, false) is StartResident ==> (launch_for(
            command,
            false,
        )->begin_capture <==> command == Command::Capture),
{
}

} // verus!
