//! The command line: its arguments grouped by option, and what they ask for.

use vstd::prelude::*;
use crate::numbers::{IntParseError, decimal_value, parse_uint};
use crate::strings::string_is;

verus! {

/// Where to write the frames of a video, at which size, and how many.
pub struct VideoExportSettings {
    pub output_path: String,
    pub width: u32,
    pub height: u32,
    pub frames: u32,
}

/// What the program does once it has read its arguments.
#[derive(Clone, Copy, PartialEq, Eq, Structural, Debug)]
pub enum Action {
    OpenProjectInGui,
    ExportProjectToFrames,
    Exit,
}

impl Action {
    /// The action's name.
    pub fn name(&self) -> (s: String)
        ensures
            s@ == match *self {
                Action::OpenProjectInGui => "OpenProjectInGui"@,
                Action::ExportProjectToFrames => "ExportProjectToFrames"@,
                Action::Exit => "Exit"@,
            },
    {
        match self {
            Action::OpenProjectInGui => "OpenProjectInGui".to_string(),
            Action::ExportProjectToFrames => "ExportProjectToFrames".to_string(),
            Action::Exit => "Exit".to_string(),
        }
    }
}

/// What the command line asks for.
pub struct CustomArgs {
    pub project_path: Option<String>,
    pub action: Option<Action>,
    pub export_options: Option<VideoExportSettings>,
}

/// The abstract value of the command line's requests: the project path, the action,
/// and the export settings (output path, width, height, frames).
pub struct CustomArgsV {
    pub project_path: Option<Seq<char>>,
    pub action: Option<Action>,
    pub export_options: Option<(Seq<char>, u32, u32, u32)>,
}

impl View for CustomArgs {
    type V = CustomArgsV;

    open spec fn view(&self) -> CustomArgsV {
        CustomArgsV {
            project_path: match &self.project_path {
                Some(p) => Some(p@),
                None => None,
            },
            action: self.action,
            export_options: match &self.export_options {
                Some(e) => Some((e.output_path@, e.width, e.height, e.frames)),
                None => None,
            },
        }
    }
}

/// Why an option of the command line cannot be used.
pub enum ArgProblem {
    /// `proj-path` was not given exactly one value.
    ProjPathArgs,
    /// The action named is none of those known.
    InvalidAction(String),
    /// `action` was not given exactly one value.
    ActionArgs,
    /// The width could not be read: its text, and why.
    Width(String, IntParseError),
    /// The height could not be read: the text shown for it (the width's), and why.
    Height(String, IntParseError),
    /// The number of frames could not be read: the text shown for it (the width's), and why.
    Frames(String, IntParseError),
    /// `export-options` was not given exactly four values.
    ExportOptionsArgs,
    /// The option has no meaning.
    InvalidArg(String),
}

/// The abstract value of such a problem.
pub enum ArgProblemV {
    ProjPathArgs,
    InvalidAction(Seq<char>),
    ActionArgs,
    Width(Seq<char>, IntParseError),
    Height(Seq<char>, IntParseError),
    Frames(Seq<char>, IntParseError),
    ExportOptionsArgs,
    InvalidArg(Seq<char>),
}

impl View for ArgProblem {
    type V = ArgProblemV;

    open spec fn view(&self) -> ArgProblemV {
        match self {
            ArgProblem::ProjPathArgs => ArgProblemV::ProjPathArgs,
            ArgProblem::InvalidAction(s) => ArgProblemV::InvalidAction(s@),
            ArgProblem::ActionArgs => ArgProblemV::ActionArgs,
            ArgProblem::Width(s, e) => ArgProblemV::Width(s@, *e),
            ArgProblem::Height(s, e) => ArgProblemV::Height(s@, *e),
            ArgProblem::Frames(s, e) => ArgProblemV::Frames(s@, *e),
            ArgProblem::ExportOptionsArgs => ArgProblemV::ExportOptionsArgs,
            ArgProblem::InvalidArg(s) => ArgProblemV::InvalidArg(s@),
        }
    }
}

/// The action named `s`, of those that can be asked for.
pub open spec fn action_named(s: Seq<char>) -> Option<Action> {
    if s == "OpenProjectInGui"@ {
        Some(Action::OpenProjectInGui)
    } else if s == "ExportProjectToFrames"@ {
        Some(Action::ExportProjectToFrames)
    } else {
        None
    }
}

/// What the option `arg` (its name, then its values) does to the requests `a`, or
/// why it cannot be used.
pub open spec fn arg_applied(a: CustomArgsV, arg: Seq<Seq<char>>) -> Result<CustomArgsV, ArgProblemV> {
    let name = arg[0];
    let n = arg.len() - 1;
    if name == "proj-path"@ {
        if n == 1 {
            Ok(CustomArgsV { project_path: Some(arg[1]), ..a })
        } else {
            Err(ArgProblemV::ProjPathArgs)
        }
    } else if name == "action"@ {
        if n == 1 {
            match action_named(arg[1]) {
                Some(ac) => Ok(CustomArgsV { action: Some(ac), ..a }),
                None => Err(ArgProblemV::InvalidAction(arg[1])),
            }
        } else {
            Err(ArgProblemV::ActionArgs)
        }
    } else if name == "export-options"@ {
        if n == 4 {
            match decimal_value(arg[2], u32::MAX as int) {
                Err(e) => Err(ArgProblemV::Width(arg[2], e)),
                Ok(w) => match decimal_value(arg[3], u32::MAX as int) {
                    Err(e) => Err(ArgProblemV::Height(arg[2], e)),
                    Ok(h) => match decimal_value(arg[4], u32::MAX as int) {
                        Err(e) => Err(ArgProblemV::Frames(arg[2], e)),
                        Ok(f) => Ok(CustomArgsV { export_options: Some((arg[1], w as u32, h as u32, f as u32)), ..a }),
                    },
                },
            }
        } else {
            Err(ArgProblemV::ExportOptionsArgs)
        }
    } else {
        Err(ArgProblemV::InvalidArg(name))
    }
}

pub open spec fn strings_v(v: Seq<String>) -> Seq<Seq<char>> {
    Seq::new(v.len(), |i: int| v[i]@)
}

/// `s` starts with `--`.
pub open spec fn is_option(s: Seq<char>) -> bool {
    s.len() >= 2 && s[0] == '-' && s[1] == '-'
}

/// The arguments `args` from `i` on, grouped: each option (its `--` dropped) with the
/// values that follow it, onto the groups `done` and the group `cur` being filled.
pub open spec fn grouped_from(args: Seq<Seq<char>>, i: int, done: Seq<Seq<Seq<char>>>, cur: Seq<Seq<char>>) -> Seq<Seq<Seq<char>>>
    decreases args.len() - i,
{
    if i < 0 || i >= args.len() {
        if cur.len() > 0 { done.push(cur) } else { done }
    } else if is_option(args[i]) {
        grouped_from(args, i + 1, if cur.len() > 0 { done.push(cur) } else { done }, seq![args[i].skip(2)])
    } else {
        grouped_from(args, i + 1, done, cur.push(args[i]))
    }
}

/// The arguments grouped by option; the first group goes unless it starts with `--`
/// (it holds the program's name).
pub open spec fn grouped(args: Seq<Seq<char>>) -> Seq<Seq<Seq<char>>> {
    let g = grouped_from(args, 0, Seq::empty(), Seq::empty());
    if g.len() > 0 && !is_option(g[0][0]) {
        g.drop_first()
    } else {
        g
    }
}

/// The requests that the groups `groups` from `i` on make of `a`, or the first
/// problem among them.
pub open spec fn args_applied(a: CustomArgsV, groups: Seq<Seq<Seq<char>>>, i: int) -> Result<CustomArgsV, ArgProblemV>
    decreases groups.len() - i,
{
    if i < 0 || i >= groups.len() {
        Ok(a)
    } else {
        match arg_applied(a, groups[i]) {
            Ok(a2) => args_applied(a2, groups, i + 1),
            Err(e) => Err(e),
        }
    }
}

/// No requests.
pub open spec fn no_requests() -> CustomArgsV {
    CustomArgsV { project_path: None, action: None, export_options: None }
}

pub proof fn lemma_grouped_nonempty(args: Seq<Seq<char>>, i: int, done: Seq<Seq<Seq<char>>>, cur: Seq<Seq<char>>)
    requires
        forall|k: int| 0 <= k < done.len() ==> (#[trigger] done[k]).len() > 0,
    ensures
        forall|k: int| 0 <= k < grouped_from(args, i, done, cur).len() ==> (#[trigger] grouped_from(args, i, done, cur)[k]).len() > 0,
    decreases args.len() - i,
{
    let d2 = if cur.len() > 0 { done.push(cur) } else { done };
    assert forall|k: int| 0 <= k < d2.len() implies (#[trigger] d2[k]).len() > 0 by {
        if k < done.len() {
            assert(d2[k] == done[k]);
        }
    }
    if i < 0 || i >= args.len() {
        assert(grouped_from(args, i, done, cur) == d2);
    } else if is_option(args[i]) {
        lemma_grouped_nonempty(args, i + 1, d2, seq![args[i].skip(2)]);
        assert(grouped_from(args, i, done, cur) == grouped_from(args, i + 1, d2, seq![args[i].skip(2)]));
    } else {
        lemma_grouped_nonempty(args, i + 1, done, cur.push(args[i]));
        assert(grouped_from(args, i, done, cur) == grouped_from(args, i + 1, done, cur.push(args[i])));
    }
}

impl CustomArgs {
    /// No requests.
    pub fn default() -> (r: CustomArgs)
        ensures
            r@ == no_requests(),
    {
        CustomArgs { project_path: None, action: None, export_options: None }
    }

    /// Why the option `arg` (its name, then its values) cannot be used, if it cannot.
    pub fn arg_problem(&self, arg: &Vec<String>) -> (r: Option<ArgProblem>)
        requires
            arg@.len() > 0,
        ensures
            match arg_applied(self@, strings_v(arg@)) {
                Ok(_) => r is None,
                Err(e) => r matches Some(p) && p@ == e,
            },
    {
        let n = arg.len() - 1;
        let name = &arg[0];
        if string_is(name, "proj-path") {
            if n == 1 { None } else { Some(ArgProblem::ProjPathArgs) }
        } else if string_is(name, "action") {
            if n == 1 {
                if string_is(&arg[1], "OpenProjectInGui") || string_is(&arg[1], "ExportProjectToFrames") {
                    None
                } else {
                    Some(ArgProblem::InvalidAction(arg[1].clone()))
                }
            } else {
                Some(ArgProblem::ActionArgs)
            }
        } else if string_is(name, "export-options") {
            if n == 4 {
                if let Err(e) = parse_uint::<u32>(arg[2].as_str()) {
                    return Some(ArgProblem::Width(arg[2].clone(), e));
                }
                if let Err(e) = parse_uint::<u32>(arg[3].as_str()) {
                    return Some(ArgProblem::Height(arg[2].clone(), e));
                }
                if let Err(e) = parse_uint::<u32>(arg[4].as_str()) {
                    return Some(ArgProblem::Frames(arg[2].clone(), e));
                }
                None
            } else {
                Some(ArgProblem::ExportOptionsArgs)
            }
        } else {
            Some(ArgProblem::InvalidArg(name.clone()))
        }
    }

    /// Takes in the option `arg` (its name, then its values).
    pub fn parse_arg(&mut self, arg: Vec<String>)
        requires
            arg@.len() > 0,
            arg_applied(old(self)@, strings_v(arg@)) is Ok,
        ensures
            arg_applied(old(self)@, strings_v(arg@)) == Ok::<CustomArgsV, ArgProblemV>(final(self)@),
    {
        let n = arg.len() - 1;
        if string_is(&arg[0], "proj-path") {
            self.project_path = Some(arg[1].clone());
        } else if string_is(&arg[0], "action") {
            if string_is(&arg[1], "OpenProjectInGui") {
                self.action = Some(Action::OpenProjectInGui);
            } else {
                self.action = Some(Action::ExportProjectToFrames);
            }
        } else {
            let width = match parse_uint::<u32>(arg[2].as_str()) {
                Ok(v) => v,
                Err(_) => 0,
            };
            let height = match parse_uint::<u32>(arg[3].as_str()) {
                Ok(v) => v,
                Err(_) => 0,
            };
            let frames = match parse_uint::<u32>(arg[4].as_str()) {
                Ok(v) => v,
                Err(_) => 0,
            };
            self.export_options = Some(VideoExportSettings { output_path: arg[1].clone(), width, height, frames });
        }
    }

    /// Groups the arguments by option (see `grouped`).
    pub fn group_args(args: &Vec<String>) -> (r: Vec<Vec<String>>)
        ensures
            r@.len() == grouped(strings_v(args@)).len(),
            forall|k: int| 0 <= k < r@.len() ==> strings_v(#[trigger] r@[k]@) == grouped(strings_v(args@))[k],
    {
        let ghost a = strings_v(args@);
        let mut groups: Vec<Vec<String>> = Vec::new();
        let mut current: Vec<String> = Vec::new();
        let mut i: usize = 0;
        assert(Seq::new(groups@.len(), |k: int| strings_v(groups@[k]@)) =~= Seq::<Seq<Seq<char>>>::empty());
        assert(strings_v(current@) =~= Seq::<Seq<char>>::empty());
        while i < args.len()
            invariant
                i <= args@.len(),
                a == strings_v(args@),
                grouped_from(a, 0, Seq::empty(), Seq::empty()) == grouped_from(
                    a,
                    i as int,
                    Seq::new(groups@.len(), |k: int| strings_v(groups@[k]@)),
                    strings_v(current@),
                ),
            decreases args.len() - i,
        {
            let ghost g0 = Seq::new(groups@.len(), |k: int| strings_v(groups@[k]@));
            let ghost c0 = strings_v(current@);
            let arg = &args[i];
            let cs = crate::strings::chars_of(arg.as_str());
            if cs.len() >= 2 && cs[0] == '-' && cs[1] == '-' {
                if current.len() > 0 {
                    let c = current;
                    groups.push(c);
                    assert(Seq::new(groups@.len(), |k: int| strings_v(groups@[k]@)) =~= g0.push(c0));
                } else {
                    assert(Seq::new(groups@.len(), |k: int| strings_v(groups@[k]@)) =~= g0);
                }
                let mut rest = String::new();
                let mut j: usize = 2;
                while j < cs.len()
                    invariant
                        2 <= j <= cs@.len(),
                        rest@ == cs@.subrange(2, j as int),
                    decreases cs.len() - j,
                {
                    rest.push(cs[j]);
                    assert(cs@.subrange(2, j as int).push(cs@[j as int]) =~= cs@.subrange(2, j + 1));
                    j = j + 1;
                }
                assert(cs@.subrange(2, cs@.len() as int) =~= a[i as int].skip(2));
                current = Vec::new();
                current.push(rest);
                assert(strings_v(current@) =~= seq![a[i as int].skip(2)]);
            } else {
                current.push(arg.clone());
                assert(strings_v(current@) =~= c0.push(a[i as int]));
                assert(Seq::new(groups@.len(), |k: int| strings_v(groups@[k]@)) =~= g0);
            }
            i = i + 1;
        }
        let ghost g0 = Seq::new(groups@.len(), |k: int| strings_v(groups@[k]@));
        if current.len() > 0 {
            let ghost c0 = strings_v(current@);
            groups.push(current);
            assert(Seq::new(groups@.len(), |k: int| strings_v(groups@[k]@)) =~= g0.push(c0));
        }
        let ghost g = Seq::new(groups@.len(), |k: int| strings_v(groups@[k]@));
        assert(g == grouped_from(a, 0, Seq::empty(), Seq::empty()));
        proof {
            lemma_grouped_nonempty(a, 0, Seq::empty(), Seq::empty());
        }
        if groups.len() > 0 {
            assert(g[0].len() > 0);
            assert(groups@[0]@.len() > 0);
            let cs = crate::strings::chars_of(groups[0][0].as_str());
            if !(cs.len() >= 2 && cs[0] == '-' && cs[1] == '-') {
                groups.remove(0);
                assert(Seq::new(groups@.len(), |k: int| strings_v(groups@[k]@)) =~= g.drop_first());
            }
        }
        groups
    }

    /// The requests made by the program's arguments `args` (its name first), or the
    /// first problem among them.
    pub fn read_from_args(args: &Vec<String>) -> (r: Result<CustomArgs, ArgProblem>)
        ensures
            match args_applied(no_requests(), grouped(strings_v(args@)), 0) {
                Ok(a) => r matches Ok(x) && x@ == a,
                Err(e) => r matches Err(p) && p@ == e,
            },
    {
        let groups = CustomArgs::group_args(args);
        let ghost gs = grouped(strings_v(args@));
        proof {
            lemma_grouped_nonempty(strings_v(args@), 0, Seq::empty(), Seq::empty());
        }
        let mut out = CustomArgs::default();
        let mut i: usize = 0;
        while i < groups.len()
            invariant
                i <= groups@.len(),
                gs == grouped(strings_v(args@)),
                groups@.len() == gs.len(),
                forall|k: int| 0 <= k < groups@.len() ==> strings_v(#[trigger] groups@[k]@) == gs[k],
                forall|k: int| 0 <= k < gs.len() ==> (#[trigger] gs[k]).len() > 0,
                args_applied(no_requests(), gs, 0) == args_applied(out@, gs, i as int),
            decreases groups.len() - i,
        {
            let arg = &groups[i];
            assert(strings_v(arg@) == gs[i as int]);
            assert(arg@.len() > 0);
            match out.arg_problem(arg) {
                Some(p) => {
                    let ghost e = arg_applied(out@, gs[i as int]);
                    assert(e is Err);
                    assert(p@ == e->Err_0);
                    assert(args_applied(out@, gs, i as int) == e);
                    return Err(p);
                },
                None => {
                    out.parse_arg(arg.clone());
                },
            }
            i = i + 1;
        }
        Ok(out)
    }
}

} // verus!
