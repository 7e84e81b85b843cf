//! The command surface: two modes, told apart by the number of arguments.
//!
//! With a label alone the tool is an injector; with a label and a command it is
//! a host; with neither it shows how it is used.

use vstd::prelude::*;

verus! {

/// What the tool was asked to do.
#[derive(Debug, PartialEq, Eq)]
pub enum Invocation {
    /// Show the usage summary.
    Usage,
    /// Relay standard input into the endpoint of `label`.
    Stdin { label: String },
    /// Create the endpoint of `label` and run `program` with `args` behind it.
    Run { label: String, program: String, args: Vec<String> },
}

/// An invocation as the contracts see it.
#[verifier::ext_equal]
pub enum InvocationView {
    Usage,
    Stdin { label: Seq<char> },
    Run { label: Seq<char>, program: Seq<char>, args: Seq<Seq<char>> },
}

impl View for Invocation {
    type V = InvocationView;

    open spec fn view(&self) -> InvocationView {
        match self {
            Invocation::Usage => InvocationView::Usage,
            Invocation::Stdin { label } => InvocationView::Stdin { label: label@ },
            Invocation::Run { label, program, args } => InvocationView::Run {
                label: label@,
                program: program@,
                args: args.deep_view(),
            },
        }
    }
}

/// What an argument list asks for. The list begins with the name under which the
/// tool was called; the label follows, then the program and its arguments.
pub open spec fn invocation_of(argv: Seq<Seq<char>>) -> InvocationView {
    if argv.len() < 2 {
        InvocationView::Usage
    } else if argv.len() == 2 {
        InvocationView::Stdin { label: argv[1] }
    } else {
        InvocationView::Run {
            label: argv[1],
            program: argv[2],
            args: argv.subrange(3, argv.len() as int),
        }
    }
}

/// The usage summary for a tool called as `exe`, line by line.
pub open spec fn usage_of(exe: Seq<char>) -> Seq<Seq<char>> {
    seq![
        exe + " has two modes, run mode and stdin mode."@,
        Seq::empty(),
        "Run mode: "@ + exe + " {label} {program arguments}"@,
        "Stdin mode: "@ + exe + " {label}"@,
    ]
}

/// Reads the mode, the label and the command off the argument list.
pub fn parse_invocation(argv: &Vec<String>) -> (invocation: Invocation)
    ensures
        invocation@ == invocation_of(argv.deep_view()),
{
    let ghost all = argv.deep_view();
    if argv.len() < 2 {
        return Invocation::Usage;
    }
    let label = argv[1].clone();
    assert(label@ == all[1]);
    if argv.len() == 2 {
        return Invocation::Stdin { label };
    }
    let program = argv[2].clone();
    assert(program@ == all[2]);
    let mut args: Vec<String> = Vec::new();
    let mut i: usize = 3;
    while i < argv.len()
        invariant
            3 <= i <= argv.len(),
            all == argv.deep_view(),
            args.deep_view() =~= all.subrange(3, i as int),
        decreases argv.len() - i,
    {
        let arg = argv[i].clone();
        assert(arg@ == all[i as int]);
        let ghost before = args.deep_view();
        args.push(arg);
        assert(args.deep_view() =~= before.push(all[i as int]));
        i += 1;
    }
    Invocation::Run { label, program, args }
}

/// The usage summary for a tool called as `exe`, line by line.
pub fn usage(exe: &str) -> (lines: Vec<String>)
    ensures
        lines.deep_view() == usage_of(exe@),
{
    let mut lines: Vec<String> = Vec::new();
    lines.push(String::from_str(exe).concat(" has two modes, run mode and stdin mode."));
    lines.push(String::new());
    lines.push(String::from_str("Run mode: ").concat(exe).concat(" {label} {program arguments}"));
    lines.push(String::from_str("Stdin mode: ").concat(exe).concat(" {label}"));
    assert(lines.deep_view() =~= usage_of(exe@));
    lines
}

} // verus!
