//! The event dispatcher: from a signal of the framework to the actions owed.
//!
//! The shell has one sustained state, idle, and reacts to three signals: the
//! page of a window finished loading, a menu item was activated, and the
//! frontend asked for the invocation arguments.  Each reaction is a pure
//! decision from the signal and the live argument vector to an [`Outcome`]:
//! which events to emit, whether to terminate the process, and what to reply
//! to a query.  The unverified shell around the library performs the outcome
//! — it emits, replies, or exits — and holds no state of its own, so every
//! dispatch is independent of what came before.

use crate::args::{initial_args, tail_of};
use vstd::prelude::*;

verus! {

/// What a recognized menu identifier asks for, with the unrecognized case an
/// explicit variant rather than an open-ended string comparison.
#[derive(Clone, Copy, Debug, PartialEq, Eq, Structural)]
pub enum MenuAction {
    /// Identifier "about": tell the frontend to open the about dialog.
    About,
    /// Identifier "quit": terminate the process.
    Quit,
    /// Any other identifier: do nothing.
    Unknown,
}

/// One event owed to the frontend.  Delivery is fire-and-forget: the shell
/// sends it once and ignores a missing receiver.
#[derive(Clone, Debug, PartialEq, Eq)]
pub enum Emission {
    /// "open-file" with one argument as payload, scoped to the window whose
    /// page just loaded.
    OpenFile(String),
    /// "open-about" with no payload, broadcast to every window.
    OpenAbout,
}

/// A signal delivered by the hosting framework.
#[derive(Clone, Debug, PartialEq, Eq)]
pub enum Signal {
    /// The page of a window finished loading (fires once per window).
    PageLoaded,
    /// A menu item with this identifier was activated.
    MenuActivated(String),
    /// The frontend invoked the argument query command.
    ArgsQueried,
}

/// Everything a dispatch decides: the events to emit in order, whether the
/// process terminates (with nothing emitted afterwards), and the synchronous
/// reply owed to a query.
#[derive(Debug)]
pub struct Outcome {
    pub emissions: Vec<Emission>,
    pub terminate: bool,
    pub reply: Option<Vec<String>>,
}

/// The action a menu identifier stands for: exactly "about" and "quit" are
/// recognized.
pub open spec fn spec_menu_action(id: Seq<char>) -> MenuAction {
    if id == "about"@ {
        MenuAction::About
    } else if id == "quit"@ {
        MenuAction::Quit
    } else {
        MenuAction::Unknown
    }
}

/// The events a menu activation emits: one "open-about" for the about item,
/// none for quit (termination outruns any emission) and none for an
/// unrecognized identifier.
pub open spec fn menu_emissions(id: Seq<char>) -> Seq<Emission> {
    match spec_menu_action(id) {
        MenuAction::About => seq![Emission::OpenAbout],
        MenuAction::Quit => Seq::empty(),
        MenuAction::Unknown => Seq::empty(),
    }
}

/// One "open-file" event per argument, payloads in the arguments' order.
pub open spec fn open_file_emissions(args: Seq<String>) -> Seq<Emission> {
    Seq::new(args.len(), |i: int| Emission::OpenFile(args[i]))
}

/// A startup sequence over `args` emits exactly `args.len()` events, every
/// one an "open-file", the payload of the `i`-th equal to the `i`-th argument.
pub proof fn lemma_open_file_emissions_exact(args: Seq<String>)
    ensures
        open_file_emissions(args).len() == args.len(),
        forall|i: int|
            0 <= i < args.len() ==> open_file_emissions(args)[i] == Emission::OpenFile(args[i]),
{
}

/// Activating the "about" item emits exactly one event, the payloadless
/// "open-about", whatever happened before: the dispatcher carries no state a
/// prior signal could have changed.
pub proof fn lemma_about_emits_once()
    ensures
        spec_menu_action("about"@) is About,
        menu_emissions("about"@).len() == 1,
        menu_emissions("about"@)[0] == Emission::OpenAbout,
{
}

/// Activating the "quit" item decides termination and emits nothing: no
/// event follows the decision to exit.
pub proof fn lemma_quit_emits_nothing()
    ensures
        spec_menu_action("quit"@) is Quit,
        menu_emissions("quit"@).len() == 0,
{
    reveal_strlit("about");
    reveal_strlit("quit");
    assert("about"@.len() != "quit"@.len());
}

/// "about" and "quit" never collide, they are the only recognized
/// identifiers, and any other identifier is an explicit no-op.
pub proof fn lemma_recognized_ids(id: Seq<char>)
    ensures
        "about"@ != "quit"@,
        spec_menu_action(id) is About <==> id == "about"@,
        spec_menu_action(id) is Quit <==> id == "quit"@,
        spec_menu_action(id) is Unknown <==> (id != "about"@ && id != "quit"@),
        spec_menu_action(id) is Unknown ==> menu_emissions(id).len() == 0,
{
    reveal_strlit("about");
    reveal_strlit("quit");
    assert("about"@.len() != "quit"@.len());
}

/// Classifies a menu identifier.  Exactly "about" and "quit" are recognized;
/// everything else is [`MenuAction::Unknown`].
pub fn menu_action_for(id: &str) -> (action: MenuAction)
    ensures
        action == spec_menu_action(id@),
{
    let owned: String = id.to_owned();
    if owned == "about".to_owned() {
        MenuAction::About
    } else if owned == "quit".to_owned() {
        MenuAction::Quit
    } else {
        MenuAction::Unknown
    }
}

/// The startup emissions for the invocation `argv`: one "open-file" event per
/// trailing argument, payloads equal to the arguments in original order.
pub fn page_load_emissions(argv: &Vec<String>) -> (ems: Vec<Emission>)
    ensures
        ems@ == open_file_emissions(tail_of(argv@)),
{
    let args = initial_args(argv);
    let mut ems: Vec<Emission> = Vec::new();
    let mut i: usize = 0;
    while i < args.len()
        invariant
            i <= args@.len(),
            args@ == tail_of(argv@),
            ems@.len() == i,
            forall|j: int| 0 <= j < i ==> ems@[j] == Emission::OpenFile(args@[j]),
        decreases args@.len() - i,
    {
        ems.push(Emission::OpenFile(args[i].clone()));
        i += 1;
    }
    assert(ems@ =~= open_file_emissions(tail_of(argv@)));
    ems
}

/// Reacts to one signal, given the live argument vector `argv`, and decides
/// the complete outcome:
///
/// - a page load emits one "open-file" event per trailing argument, in order;
/// - activating "about" emits exactly one "open-about" event, whatever came
///   before (the dispatcher carries no state);
/// - activating "quit" terminates the process and emits nothing;
/// - an unrecognized identifier does nothing;
/// - the argument query replies with the trailing arguments and emits nothing.
pub fn dispatch(signal: &Signal, argv: &Vec<String>) -> (out: Outcome)
    ensures
        signal is PageLoaded ==> {
            &&& out.emissions@ == open_file_emissions(tail_of(argv@))
            &&& !out.terminate
            &&& out.reply is None
        },
        signal matches Signal::MenuActivated(id) ==> {
            &&& out.emissions@ == menu_emissions(id@)
            &&& out.terminate == (spec_menu_action(id@) is Quit)
            &&& out.reply is None
        },
        signal is ArgsQueried ==> {
            &&& out.emissions@.len() == 0
            &&& !out.terminate
            &&& out.reply matches Some(args) && args@ == tail_of(argv@)
        },
{
    match signal {
        Signal::PageLoaded => Outcome {
            emissions: page_load_emissions(argv),
            terminate: false,
            reply: None,
        },
        Signal::MenuActivated(id) => {
            let action = menu_action_for(id.as_str());
            match action {
                MenuAction::About => {
                    let mut ems: Vec<Emission> = Vec::new();
                    ems.push(Emission::OpenAbout);
                    assert(ems@ =~= menu_emissions(id@));
                    Outcome { emissions: ems, terminate: false, reply: None }
                },
                MenuAction::Quit => {
                    let ems: Vec<Emission> = Vec::new();
                    assert(ems@ =~= menu_emissions(id@));
                    Outcome { emissions: ems, terminate: true, reply: None }
                },
                MenuAction::Unknown => {
                    let ems: Vec<Emission> = Vec::new();
                    assert(ems@ =~= menu_emissions(id@));
                    Outcome { emissions: ems, terminate: false, reply: None }
                },
            }
        },
        Signal::ArgsQueried => Outcome {
            emissions: Vec::new(),
            terminate: false,
            reply: Some(initial_args(argv)),
        },
    }
}

} // verus!
