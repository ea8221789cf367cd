//! The device controller's decision logic.
//!
//! One invocation of the tool performs a fixed sequence of device
//! actions that depends only on the command-line arguments: with no
//! color argument it prints a usage line and never touches the device;
//! with an unsupported argument it opens and claims the device, prints
//! a message naming the argument, and releases the interface without
//! any transfer; with a supported color it performs the four-step
//! handshake (write wake, read reply, write color, read reply) between
//! claiming and releasing the interface.
//!
//! [`plan`] computes that sequence. The binary around this library
//! walks the returned actions in order and performs each one through
//! the USB stack, stopping at the first failure.

use vstd::prelude::*;
use crate::message::Color;
use crate::message::color_bytes;
use crate::message::color_message;
use crate::message::get_first_message;
use crate::message::wake_bytes;

verus! {

/// Vendor identifier of the target device.
pub const VID: u16 = 0x04D8;

/// Product identifier of the target device.
pub const PID: u16 = 0xF372;

/// The single interface the controller claims.
pub const IFACE: u8 = 0;

/// Outbound interrupt endpoint address.
pub const USB_OUT: u8 = 0x01;

/// Inbound interrupt endpoint address.
pub const USB_IN: u8 = 0x81;

/// Deadline for each interrupt transfer, in milliseconds.
pub const TRANSFER_TIMEOUT_MS: u64 = 500;

/// One step an invocation performs, in order.
#[derive(Clone, Debug, PartialEq, Eq)]
pub enum Action {
    /// Print the usage line; no color argument was given.
    PrintUsage,
    /// Print that the given argument names no supported color.
    PrintNotSupported(String),
    /// Open the device with [`VID`] and [`PID`].
    OpenDevice,
    /// Claim interface [`IFACE`] on the opened device.
    ClaimInterface,
    /// Write the 8-byte message to endpoint [`USB_OUT`].
    WriteMessage([u8; 8]),
    /// Read a reply of up to 8 bytes from endpoint [`USB_IN`],
    /// discarding its content.
    ReadReply,
    /// Release interface [`IFACE`].
    ReleaseInterface,
}

/// The mathematical shape of an [`Action`].
pub enum ActionV {
    PrintUsage,
    PrintNotSupported(Seq<char>),
    OpenDevice,
    ClaimInterface,
    WriteMessage(Seq<u8>),
    ReadReply,
    ReleaseInterface,
}

impl View for Action {
    type V = ActionV;

    open spec fn view(&self) -> ActionV {
        match self {
            Action::PrintUsage => ActionV::PrintUsage,
            Action::PrintNotSupported(s) => ActionV::PrintNotSupported(s@),
            Action::OpenDevice => ActionV::OpenDevice,
            Action::ClaimInterface => ActionV::ClaimInterface,
            Action::WriteMessage(b) => ActionV::WriteMessage(b@),
            Action::ReadReply => ActionV::ReadReply,
            Action::ReleaseInterface => ActionV::ReleaseInterface,
        }
    }
}

/// The shapes of a sequence of actions.
pub open spec fn actions_view(s: Seq<Action>) -> Seq<ActionV> {
    s.map_values(|a: Action| a@)
}

/// Which color a command-line argument selects, if any. The match is
/// case-sensitive and exact.
pub open spec fn parse_color_spec(s: Seq<char>) -> Option<Color> {
    if s == "red"@ {
        Some(Color::Red)
    } else if s == "green"@ {
        Some(Color::Green)
    } else if s == "yellow"@ {
        Some(Color::Yellow)
    } else if s == "blue"@ {
        Some(Color::Blue)
    } else {
        None
    }
}

/// The four transfers that switch the light to `c`: wake, reply,
/// color, reply.
pub open spec fn handshake_actions(c: Color) -> Seq<ActionV> {
    seq![
        ActionV::WriteMessage(wake_bytes()),
        ActionV::ReadReply,
        ActionV::WriteMessage(color_bytes(c)),
        ActionV::ReadReply,
    ]
}

/// The complete action sequence of one invocation with arguments
/// `args` (program name first, as the process receives them).
pub open spec fn plan_spec(args: Seq<Seq<char>>) -> Seq<ActionV> {
    if args.len() < 2 {
        seq![ActionV::PrintUsage]
    } else {
        match parse_color_spec(args[1]) {
            Some(c) => seq![ActionV::OpenDevice, ActionV::ClaimInterface] + handshake_actions(c)
                + seq![ActionV::ReleaseInterface],
            None => seq![
                ActionV::OpenDevice,
                ActionV::ClaimInterface,
                ActionV::PrintNotSupported(args[1]),
                ActionV::ReleaseInterface,
            ],
        }
    }
}

/// With no color argument (one argument or none in total) the
/// invocation only prints the usage line: the device is never opened
/// and no transfer occurs.
pub proof fn lemma_no_argument_never_opens(args: Seq<Seq<char>>)
    requires
        args.len() < 2,
    ensures
        plan_spec(args) =~~= seq![ActionV::PrintUsage],
        forall|i: int|
            0 <= i < plan_spec(args).len() ==> plan_spec(args)[i] != ActionV::OpenDevice,
{
}

/// With an argument that names no supported color the invocation opens
/// the device, claims and releases the interface, and prints a message
/// carrying that exact argument, but performs no write and no read.
pub proof fn lemma_unsupported_argument_no_transfer(args: Seq<Seq<char>>)
    requires
        args.len() >= 2,
        parse_color_spec(args[1]) is None,
    ensures
        plan_spec(args) =~~= seq![
            ActionV::OpenDevice,
            ActionV::ClaimInterface,
            ActionV::PrintNotSupported(args[1]),
            ActionV::ReleaseInterface,
        ],
        forall|i: int|
            0 <= i < plan_spec(args).len() ==> !(plan_spec(args)[i] is WriteMessage)
                && !(plan_spec(args)[i] is ReadReply),
{
}

/// Whatever color is selected, the handshake writes the wake message
/// first, then the color message, each write followed by one read.
pub proof fn lemma_handshake_order(c: Color)
    ensures
        handshake_actions(c).len() == 4,
        handshake_actions(c)[0] == ActionV::WriteMessage(wake_bytes()),
        handshake_actions(c)[1] == ActionV::ReadReply,
        handshake_actions(c)[2] == ActionV::WriteMessage(color_bytes(c)),
        handshake_actions(c)[3] == ActionV::ReadReply,
{
}

/// With a supported color the invocation opens the device, claims the
/// interface, performs the four-transfer handshake, and releases the
/// interface only after the last read.
pub proof fn lemma_supported_argument_full_plan(args: Seq<Seq<char>>, c: Color)
    requires
        args.len() >= 2,
        parse_color_spec(args[1]) == Some(c),
    ensures
        plan_spec(args) =~~= seq![
            ActionV::OpenDevice,
            ActionV::ClaimInterface,
            ActionV::WriteMessage(wake_bytes()),
            ActionV::ReadReply,
            ActionV::WriteMessage(color_bytes(c)),
            ActionV::ReadReply,
            ActionV::ReleaseInterface,
        ],
{
}

/// The action sequence depends only on the color argument: two
/// invocations with the same argument produce identical, independent
/// plans, whatever else surrounds them. No state is carried from one
/// invocation to the next.
pub proof fn lemma_plan_depends_only_on_color_argument(
    args1: Seq<Seq<char>>,
    args2: Seq<Seq<char>>,
)
    requires
        args1.len() >= 2,
        args2.len() >= 2,
        args1[1] == args2[1],
    ensures
        plan_spec(args1) =~~= plan_spec(args2),
{
}

/// Which color a command-line argument selects, if any.
pub fn parse_color(s: &String) -> (r: Option<Color>)
    ensures
        r == parse_color_spec(s@),
{
    if *s == "red".to_owned() {
        Some(Color::Red)
    } else if *s == "green".to_owned() {
        Some(Color::Green)
    } else if *s == "yellow".to_owned() {
        Some(Color::Yellow)
    } else if *s == "blue".to_owned() {
        Some(Color::Blue)
    } else {
        None
    }
}

/// Compute the action sequence of one invocation with arguments
/// `args`.
pub fn plan(args: &Vec<String>) -> (r: Vec<Action>)
    ensures
        actions_view(r@) =~~= plan_spec(args.deep_view()),
{
    let mut r: Vec<Action> = Vec::new();
    if args.len() < 2 {
        r.push(Action::PrintUsage);
    } else {
        r.push(Action::OpenDevice);
        r.push(Action::ClaimInterface);
        match parse_color(&args[1]) {
            Some(c) => {
                r.push(Action::WriteMessage(get_first_message()));
                r.push(Action::ReadReply);
                r.push(Action::WriteMessage(color_message(c)));
                r.push(Action::ReadReply);
            },
            None => {
                r.push(Action::PrintNotSupported(args[1].clone()));
            },
        }
        r.push(Action::ReleaseInterface);
    }
    r
}

} // verus!
