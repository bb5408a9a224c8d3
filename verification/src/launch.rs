//! What to start, and for which device.

use crate::fault;
use crate::rest;
use crate::text;
use fault::Fault;
use rest::Device;
use vstd::prelude::*;

verus! {

/// What the arguments ask for.
pub enum Launch {
    /// The interactive TUI dashboard.
    Tui,
    Help,
    Version,
    /// A scriptable subcommand, with its arguments.
    Command(Vec<String>),
}

pub enum LaunchView {
    Tui,
    Help,
    Version,
    Command(Seq<Seq<char>>),
}

impl View for Launch {
    type V = LaunchView;

    open spec fn view(&self) -> LaunchView {
        match self {
            Launch::Tui => LaunchView::Tui,
            Launch::Help => LaunchView::Help,
            Launch::Version => LaunchView::Version,
            Launch::Command(args) => LaunchView::Command(text::view_all(args@)),
        }
    }
}

/// What arguments ask for: the TUI without any, and else what the first says.
/// `--list` and `--dump` stand for the commands of those names.
pub open spec fn launched(args: Seq<Seq<char>>) -> LaunchView {
    let first = if args.len() > 0 {
        args[0]
    } else {
        ""@
    };
    if first == ""@ || first == "tui"@ {
        LaunchView::Tui
    } else if first == "-h"@ || first == "--help"@ || first == "help"@ {
        LaunchView::Help
    } else if first == "-V"@ || first == "--version"@ || first == "version"@ {
        LaunchView::Version
    } else if first == "--list"@ {
        LaunchView::Command(seq!["list"@])
    } else if first == "--dump"@ {
        LaunchView::Command(seq!["dump"@])
    } else {
        LaunchView::Command(args)
    }
}

fn single(word: &str) -> (r: Vec<String>)
    ensures
        text::view_all(r@) == seq![word@],
{
    let mut v: Vec<String> = Vec::new();
    v.push(text::owned(word));
    assert(text::view_all(v@) =~= seq![word@]);
    v
}

pub fn launch(args: Vec<String>) -> (r: Launch)
    ensures
        r@ == launched(text::view_all(args@)),
{
    let first = if args.len() > 0 {
        text::owned(args[0].as_str())
    } else {
        text::owned("")
    };
    let w = first.as_str();
    if text::same(w, "") || text::same(w, "tui") {
        Launch::Tui
    } else if text::same(w, "-h") || text::same(w, "--help") || text::same(w, "help") {
        Launch::Help
    } else if text::same(w, "-V") || text::same(w, "--version") || text::same(w, "version") {
        Launch::Version
    } else if text::same(w, "--list") {
        Launch::Command(single("list"))
    } else if text::same(w, "--dump") {
        Launch::Command(single("dump"))
    } else {
        Launch::Command(args)
    }
}

/// What follows the first `flag` among arguments.
pub open spec fn value_after(args: Seq<Seq<char>>, flag: Seq<char>) -> Option<Seq<char>>
    decreases args.len(),
{
    if args.len() == 0 {
        None
    } else if args[0] == flag {
        if args.len() > 1 {
            Some(args[1])
        } else {
            None
        }
    } else {
        value_after(args.skip(1), flag)
    }
}

pub fn flag_value(args: &Vec<String>, flag: &str) -> (r: Option<String>)
    ensures
        text::view_option(r) == value_after(text::view_all(args@), flag@),
{
    let ghost all = text::view_all(args@);
    let mut i: usize = 0;
    assert(all.skip(0) == all);
    while i < args.len()
        invariant
            all == text::view_all(args@),
            i <= args@.len(),
            value_after(all, flag@) == value_after(all.skip(i as int), flag@),
        decreases args@.len() - i,
    {
        proof {
            assert(all.skip(i as int)[0] == args@[i as int]@);
            assert(all.skip(i as int).skip(1) == all.skip(i + 1));
        }
        if text::same(args[i].as_str(), flag) {
            if i + 1 < args.len() {
                assert(all.skip(i as int)[1] == args@[i + 1]@);
                return Some(text::owned(args[i + 1].as_str()));
            }
            return None;
        }
        i = i + 1;
    }
    None
}

/// The device that `--device` or, without it, `-D` names.
pub open spec fn override_in(args: Seq<Seq<char>>) -> Option<Seq<char>> {
    match value_after(args, "--device"@) {
        Some(d) => Some(d),
        None => value_after(args, "-D"@),
    }
}

pub fn device_override(args: &Vec<String>) -> (r: Option<String>)
    ensures
        text::view_option(r) == override_in(text::view_all(args@)),
{
    match flag_value(args, "--device") {
        Some(d) => Some(d),
        None => flag_value(args, "-D"),
    }
}

/// The device of an account for the TUI: the one with the wanted id, or the
/// first where none is wanted. An empty id wants none.
pub open spec fn chosen(devices: Seq<rest::DeviceView>, want: Option<Seq<char>>) -> Result<
    int,
    fault::FaultView,
> {
    if devices.len() == 0 {
        Err(fault::plain("no devices found on this account"@))
    } else {
        match rest::asked_id(want) {
            Some(id) => match rest::place_of(devices, id) {
                Some(i) => Ok(i),
                None => Err(
                    fault::plain("configured device_id `"@ + id + "` not found on account"@),
                ),
            },
            None => Ok(0),
        }
    }
}

pub fn choose_device(devices: &Vec<Device>, want: &Option<String>) -> (r: Result<usize, Fault>)
    ensures
        match chosen(rest::device_views(devices@), text::view_option(*want)) {
            Ok(i) => r == Ok::<usize, Fault>(i as usize) && 0 <= i < devices@.len(),
            Err(f) => r matches Err(g) && g@ == f,
        },
{
    if devices.len() == 0 {
        return Err(Fault::plain("no devices found on this account"));
    }
    match rest::ask_id(want) {
        Some(id) => match rest::find_device(devices, id) {
            Some(i) => Ok(i),
            None => Err(
                Fault::Plain(text::cat3("configured device_id `", id, "` not found on account")),
            ),
        },
        None => Ok(0),
    }
}

/// The device that the TUI controls, by its name and its id.
pub open spec fn controlled(d: rest::DeviceView) -> Seq<char> {
    "Controlling: "@ + d.shown_name() + " ("@ + d.device_id + ")"@
}

/// The line that tells which device the TUI controls.
pub fn controlling(d: &Device) -> (r: String)
    ensures
        r@ == controlled(d@),
{
    text::cat5("Controlling: ", rest::display_name(d), " (", d.device_id.as_str(), ")")
}

} // verus!
