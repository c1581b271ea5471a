//! The worker behind the quick commands: it receives the typed query and the edited
//! video's number, works out the completions step by step, and runs commands. The
//! editor keeps a copy of the completions, updated by the worker's messages.
//!
//! The worker's decisions are made here, one message or step at a time; whoever runs
//! the worker passes the messages, lists directories, and reads numbers.

use vstd::prelude::*;
use crate::quick_commands::{
    QctCommand, QctCommandV, commands_v, EditingPartAbstract, EditingPartAbstractV, abstract_of, completions,
    completions_at, entries_v, strings_of, listing_dir,
};
use crate::video::{Video, preorder};
use crate::useful::get_elem_from_index_recursive;

verus! {

/// A message to the worker.
pub enum QctSendable {
    Stop,
    SetQuery(String),
    SetEditing(Option<u32>),
    VidUpdated,
    /// If None, executes the query, if Some(n), executes the nth autocompletion.
    ExecQuery(Option<usize>),
}

/// A message from the worker to the editor.
pub enum QctCompletions {
    Clear,
    SetEntry(usize, String),
    Command(QctCommand),
    Commands(Vec<QctCommand>),
}

/// The abstract value of a message from the worker.
pub enum QctCompletionsV {
    Clear,
    SetEntry(usize, Seq<char>),
    Command(QctCommandV),
    Commands(Seq<QctCommandV>),
}

impl View for QctCompletions {
    type V = QctCompletionsV;

    open spec fn view(&self) -> QctCompletionsV {
        match self {
            QctCompletions::Clear => QctCompletionsV::Clear,
            QctCompletions::SetEntry(i, s) => QctCompletionsV::SetEntry(*i, s@),
            QctCompletions::Command(c) => QctCompletionsV::Command(c@),
            QctCompletions::Commands(v) => QctCompletionsV::Commands(commands_v(v@)),
        }
    }
}

pub open spec fn messages_v(v: Seq<QctCompletions>) -> Seq<QctCompletionsV> {
    Seq::new(v.len(), |i: int| v[i]@)
}

/// The completions `c` after the message `m`: cleared, or the entry at an index set
/// (empty entries filling the gap up to it).
pub open spec fn completion_applied(c: Seq<Seq<char>>, m: QctCompletionsV) -> Seq<Seq<char>> {
    match m {
        QctCompletionsV::Clear => Seq::empty(),
        QctCompletionsV::SetEntry(i, v) => if c.len() <= i {
            c + Seq::new((i - c.len()) as nat, |k: int| Seq::<char>::empty()) + seq![v]
        } else {
            c.update(i as int, v)
        },
        _ => c,
    }
}

/// The completions `c` after the messages `ms`, in order.
pub open spec fn completions_applied(c: Seq<Seq<char>>, ms: Seq<QctCompletionsV>) -> Seq<Seq<char>>
    decreases ms.len(),
{
    if ms.len() == 0 {
        c
    } else {
        completion_applied(completions_applied(c, ms.drop_last()), ms.last())
    }
}

/// The requests that the message `m` carries.
pub open spec fn commands_in(m: QctCompletionsV) -> Seq<QctCommandV> {
    match m {
        QctCompletionsV::Command(c) => seq![c],
        QctCompletionsV::Commands(v) => v,
        _ => Seq::empty(),
    }
}

/// The requests that the messages `ms` carry, in order.
pub open spec fn commands_of(ms: Seq<QctCompletionsV>) -> Seq<QctCommandV>
    decreases ms.len(),
{
    if ms.len() == 0 {
        Seq::empty()
    } else {
        commands_of(ms.drop_last()) + commands_in(ms.last())
    }
}

/// Taking in messages in two batches leaves the same completions as taking them in
/// all at once.
pub proof fn lemma_completions_applied_in_batches(c: Seq<Seq<char>>, a: Seq<QctCompletionsV>, b: Seq<QctCompletionsV>)
    ensures
        completions_applied(c, a + b) == completions_applied(completions_applied(c, a), b),
        commands_of(a + b) == commands_of(a) + commands_of(b),
    decreases b.len(),
{
    if b.len() == 0 {
        assert(a + b =~= a);
        assert(commands_of(a) + commands_of(b) =~= commands_of(a));
    } else {
        lemma_completions_applied_in_batches(c, a, b.drop_last());
        assert((a + b).drop_last() =~= a + b.drop_last());
        assert((a + b).last() == b.last());
        assert(commands_of(a) + commands_of(b.drop_last()) + commands_in(b.last()) =~= commands_of(a) + (
        commands_of(b.drop_last()) + commands_in(b.last())));
    }
}

/// Takes in one message from the worker: updates the completions, and adds the
/// requests it carries to `cmds`.
pub fn apply_completion(completions: &mut Vec<String>, cmds: &mut Vec<QctCommand>, recv: QctCompletions)
    ensures
        strings_of(final(completions)@) == completion_applied(strings_of(old(completions)@), recv@),
        commands_v(final(cmds)@) == commands_v(old(cmds)@) + commands_in(recv@),
{
    let ghost c0 = strings_of(completions@);
    let ghost k0 = commands_v(cmds@);
    match recv {
        QctCompletions::Clear => {
            completions.clear();
            assert(strings_of(completions@) =~= Seq::<Seq<char>>::empty());
            assert(commands_v(cmds@) =~= k0 + Seq::<QctCommandV>::empty());
        },
        QctCompletions::SetEntry(index, value) => {
            let ghost v = value@;
            if completions.len() <= index {
                let ghost start = completions@.len();
                while completions.len() < index
                    invariant
                        start <= completions@.len() <= index,
                        strings_of(completions@) =~= c0 + Seq::new(
                            (completions@.len() - start) as nat,
                            |k: int| Seq::<char>::empty(),
                        ),
                        start == c0.len(),
                    decreases index - completions@.len(),
                {
                    let ghost b = strings_of(completions@);
                    completions.push(String::new());
                    assert(strings_of(completions@) =~= b.push(Seq::<char>::empty()));
                    assert(Seq::new((completions@.len() - start) as nat, |k: int| Seq::<char>::empty()) =~= Seq::new(
                        (completions@.len() - 1 - start) as nat,
                        |k: int| Seq::<char>::empty(),
                    ).push(Seq::<char>::empty()));
                }
                completions.push(value);
                assert(strings_of(completions@) =~= c0 + Seq::new((index - c0.len()) as nat, |k: int| Seq::<char>::empty())
                    + seq![v]);
            } else {
                completions.set(index, value);
                assert(strings_of(completions@) =~= c0.update(index as int, v));
            }
            assert(commands_v(cmds@) =~= k0 + Seq::<QctCommandV>::empty());
        },
        QctCompletions::Command(cmd) => {
            let ghost cv = cmd@;
            cmds.push(cmd);
            assert(commands_v(cmds@) =~= k0 + seq![cv]);
            assert(strings_of(completions@) =~= c0);
        },
        QctCompletions::Commands(more) => {
            let ghost mv = commands_v(more@);
            let mut more = more;
            cmds.append(&mut more);
            assert(commands_v(cmds@) =~= k0 + mv);
            assert(strings_of(completions@) =~= c0);
        },
    }
}

/// Takes in the messages that the worker sent since the last time, in order: updates
/// the completions and returns the requests they carried.
pub fn refresh_completions(completions: &mut Vec<String>, received: Vec<QctCompletions>) -> (cmds: Vec<QctCommand>)
    ensures
        strings_of(final(completions)@) == completions_applied(strings_of(old(completions)@), messages_v(received@)),
        commands_v(cmds@) == commands_of(messages_v(received@)),
{
    let ghost all = messages_v(received@);
    let n = received.len();
    let mut cmds: Vec<QctCommand> = Vec::new();
    let mut rest = received;
    let ghost c0 = strings_of(completions@);
    assert(all.take(0) =~= Seq::<QctCompletionsV>::empty());
    assert(commands_v(cmds@) =~= Seq::<QctCommandV>::empty());
    let mut i: usize = 0;
    while rest.len() > 0
        invariant
            i + rest@.len() == all.len(),
            all.len() == n,
            messages_v(rest@) == all.skip(i as int),
            strings_of(completions@) == completions_applied(c0, all.take(i as int)),
            commands_v(cmds@) == commands_of(all.take(i as int)),
        decreases rest@.len(),
    {
        let ghost before = messages_v(rest@);
        let m = rest.remove(0);
        assert(m@ == before[0]);
        assert(m@ == all[i as int]);
        assert(messages_v(rest@) =~= before.drop_first());
        assert(all.skip(i as int).drop_first() =~= all.skip(i + 1));
        assert(all.take(i + 1).drop_last() =~= all.take(i as int));
        assert(all.take(i + 1).last() == all[i as int]);
        apply_completion(completions, &mut cmds, m);
        i = i + 1;
    }
    assert(all.take(i as int) =~= all);
    cmds
}

/// The abstract state of the worker.
pub struct QctWorkerV {
    /// The completions offered so far, in order; the editor's copy follows them.
    pub possible_commands: Seq<Seq<char>>,
    /// The last step of working out the completions that was done, while not all are
    /// (the steps are 1 to 5; 0 before the first).
    pub processing_command: Option<u32>,
    pub query: Seq<char>,
    /// What the completions know of the video being edited.
    pub editing: EditingPartAbstractV,
    /// The query changed since the completions were last cleared.
    pub new_query: bool,
    /// The edited video, or the video, changed since the edited part was last looked up.
    pub new_editing: bool,
    /// The number of the edited video in the tree's preorder, if any.
    pub edited_part: Option<u32>,
}

/// The worker's state.
pub struct QctWorker {
    possible_commands: Vec<String>,
    processing_command: Option<u32>,
    query: String,
    editing_part_abstract: EditingPartAbstract,
    new_query: bool,
    new_editing: bool,
    edited_part: Option<u32>,
}

impl View for QctWorker {
    type V = QctWorkerV;

    closed spec fn view(&self) -> QctWorkerV {
        QctWorkerV {
            possible_commands: strings_of(self.possible_commands@),
            processing_command: self.processing_command,
            query: self.query@,
            editing: self.editing_part_abstract@,
            new_query: self.new_query,
            new_editing: self.new_editing,
            edited_part: self.edited_part,
        }
    }
}

/// What the worker does with a message: stop, run a command, or nothing more.
pub enum QctReceived {
    Stop,
    Nothing,
    /// The command to run (see `exec_command`); its result goes back through
    /// `QctWorker::exec_result`.
    Exec(String),
}

/// What the part of the video numbered `edited` in `vid`'s preorder lets the
/// completions know, if there is such a part.
pub open spec fn editing_of(vid: crate::video::VideoV, edited: Option<u32>) -> EditingPartAbstractV {
    match edited {
        Some(e) => if e < preorder(vid).len() {
            abstract_of(preorder(vid)[e as int])
        } else {
            EditingPartAbstractV::NotEditing
        },
        None => EditingPartAbstractV::NotEditing,
    }
}

impl QctWorker {
    /// A worker for the video numbered `edited_part`, with an empty query; the edited
    /// part is looked up first.
    pub fn new(edited_part: Option<u32>) -> (r: QctWorker)
        ensures
            r@ == (QctWorkerV {
                possible_commands: Seq::empty(),
                processing_command: None,
                query: Seq::empty(),
                editing: EditingPartAbstractV::NotEditing,
                new_query: false,
                new_editing: true,
                edited_part,
            }),
    {
        let r = QctWorker {
            possible_commands: Vec::new(),
            processing_command: None,
            query: String::new(),
            editing_part_abstract: EditingPartAbstract::NotEditing,
            new_query: false,
            new_editing: true,
            edited_part,
        };
        assert(strings_of(r.possible_commands@) =~= Seq::<Seq<char>>::empty());
        r
    }

    /// The query being typed.
    pub fn query(&self) -> (r: &String)
        ensures
            r@ == self@.query,
    {
        &self.query
    }

    /// The completions offered so far.
    pub fn possible_commands(&self) -> (r: &Vec<String>)
        ensures
            strings_of(r@) == self@.possible_commands,
    {
        &self.possible_commands
    }

    /// Whether completions are still being worked out.
    pub fn is_processing(&self) -> (r: bool)
        ensures
            r == (self@.processing_command is Some),
    {
        self.processing_command.is_some()
    }

    /// The directory whose files the next step needs (see `listing_dir`): only the
    /// step that offers what to add lists one. `None` where that step panics.
    pub fn listing(&self) -> (r: Option<Option<String>>)
        ensures
            self@.processing_command == Some(3u32) ==> match listing_dir(self@.query) {
                None => r is None,
                Some(None) => r matches Some(x) && x is None,
                Some(Some(d)) => r matches Some(Some(x)) && x@ == d,
            },
            self@.processing_command != Some(3u32) ==> (r matches Some(x) && x is None),
    {
        if self.processing_command == Some(3u32) {
            crate::quick_commands::completion_listing(&self.query)
        } else {
            Some(None)
        }
    }

    /// Takes in one message.
    pub fn receive(&mut self, msg: QctSendable) -> (r: QctReceived)
        ensures
            match msg {
                QctSendable::Stop => r is Stop && final(self)@ == old(self)@,
                QctSendable::SetQuery(q) => r is Nothing && final(self)@ == (QctWorkerV {
                    query: q@,
                    new_query: true,
                    ..old(self)@
                }),
                QctSendable::SetEditing(e) => r is Nothing && final(self)@ == (QctWorkerV {
                    edited_part: e,
                    new_editing: true,
                    ..old(self)@
                }),
                QctSendable::VidUpdated => r is Nothing && final(self)@ == (QctWorkerV { new_editing: true, ..old(self)@ }),
                QctSendable::ExecQuery(Some(i)) => final(self)@ == old(self)@ && (if i < old(self)@.possible_commands.len() {
                    r matches QctReceived::Exec(c) && c@ == old(self)@.possible_commands[i as int]
                } else {
                    r is Nothing
                }),
                QctSendable::ExecQuery(None) => final(self)@ == old(self)@ && (r matches QctReceived::Exec(c) && c@
                    == old(self)@.query),
            },
    {
        match msg {
            QctSendable::Stop => QctReceived::Stop,
            QctSendable::SetQuery(q) => {
                self.query = q;
                self.new_query = true;
                QctReceived::Nothing
            },
            QctSendable::SetEditing(e) => {
                self.edited_part = e;
                self.new_editing = true;
                QctReceived::Nothing
            },
            QctSendable::VidUpdated => {
                self.new_editing = true;
                QctReceived::Nothing
            },
            QctSendable::ExecQuery(Some(i)) => {
                if i < self.possible_commands.len() {
                    QctReceived::Exec(self.possible_commands[i].clone())
                } else {
                    QctReceived::Nothing
                }
            },
            QctSendable::ExecQuery(None) => QctReceived::Exec(self.query.clone()),
        }
    }

    /// The message that reports the result of a command: its requests, if there are
    /// any; or, where it failed, its message put in place of the query.
    pub fn exec_result(result: Result<Vec<QctCommand>, String>) -> (r: Option<QctCompletions>)
        ensures
            match result {
                Ok(cmds) => if cmds@.len() > 0 {
                    r matches Some(m) && m@ == QctCompletionsV::Commands(commands_v(cmds@))
                } else {
                    r is None
                },
                Err(q) => r matches Some(m) && m@ == QctCompletionsV::Command(QctCommandV::SetQueryTo(q@)),
            },
    {
        match result {
            Ok(cmds) => if cmds.len() > 0 {
                Some(QctCompletions::Commands(cmds))
            } else {
                None
            },
            Err(q) => Some(QctCompletions::Command(QctCommand::SetQueryTo(q))),
        }
    }

    /// After the messages were taken in: where the query or the edited part changed,
    /// the completions are cleared and worked out again from the first step; where the
    /// edited part changed, it is looked up in `vid`.
    pub fn update(&mut self, vid: &Video) -> (r: Option<QctCompletions>)
        ensures
            (old(self)@.new_query || old(self)@.new_editing) ==> (r matches Some(m) && m@ is Clear),
            !(old(self)@.new_query || old(self)@.new_editing) ==> r is None,
            match r {
                Some(m) => completion_applied(old(self)@.possible_commands, m@) == final(self)@.possible_commands,
                None => final(self)@.possible_commands == old(self)@.possible_commands,
            },
            final(self)@ == (QctWorkerV {
                possible_commands: if old(self)@.new_query || old(self)@.new_editing {
                    Seq::empty()
                } else {
                    old(self)@.possible_commands
                },
                processing_command: if old(self)@.new_query || old(self)@.new_editing {
                    Some(0u32)
                } else {
                    old(self)@.processing_command
                },
                editing: if old(self)@.new_editing {
                    editing_of(vid@, old(self)@.edited_part)
                } else {
                    old(self)@.editing
                },
                new_query: false,
                new_editing: false,
                ..old(self)@
            }),
    {
        let mut r = None;
        if self.new_query || self.new_editing {
            self.new_query = false;
            self.possible_commands.clear();
            self.processing_command = Some(0);
            r = Some(QctCompletions::Clear);
            assert(strings_of(self.possible_commands@) =~= Seq::<Seq<char>>::empty());
        }
        if self.new_editing {
            self.new_editing = false;
            let found = match self.edited_part {
                Some(editing) => {
                    let mut index = editing;
                    match get_elem_from_index_recursive(vid, &mut index) {
                        Some(part) => EditingPartAbstract::from(part),
                        None => EditingPartAbstract::NotEditing,
                    }
                },
                None => EditingPartAbstract::NotEditing,
            };
            self.editing_part_abstract = found;
        }
        r
    }

    /// Works out the next step of the completions, if they are not all worked out:
    /// the completions of that step (see `completions_at`) are offered after the
    /// others, each with a message to the editor. `entries` are the files of the
    /// directory that `listing` names.
    pub fn process(&mut self, entries: &Vec<(String, Option<String>)>) -> (r: Vec<QctCompletions>)
        requires
            old(self)@.processing_command == Some(3u32) ==> listing_dir(old(self)@.query) is Some,
        ensures
            match old(self)@.processing_command {
                None => r@.len() == 0 && final(self)@ == old(self)@,
                Some(p) => {
                    let step: u32 = if p >= 4 { 5u32 } else { (p + 1) as u32 };
                    let found = completions_at(step, old(self)@.query, old(self)@.editing, entries_v(entries@));
                    &&& final(self)@ == (QctWorkerV {
                        possible_commands: old(self)@.possible_commands + found,
                        processing_command: if step >= 5 { None } else { Some(step) },
                        ..old(self)@
                    })
                    &&& messages_v(r@) == Seq::new(
                        found.len(),
                        |k: int| QctCompletionsV::SetEntry((old(self)@.possible_commands.len() + k) as usize, found[k]),
                    )
                },
            },
            completions_applied(old(self)@.possible_commands, messages_v(r@)) == final(self)@.possible_commands,
    {
        let mut msgs: Vec<QctCompletions> = Vec::new();
        assert(messages_v(msgs@) =~= Seq::<QctCompletionsV>::empty());
        let current = self.processing_command;
        match current {
            None => {
                assert(messages_v(msgs@) =~= Seq::<QctCompletionsV>::empty());
                msgs
            },
            Some(pc) => {
                let step: u32 = if pc >= 4 { 5 } else { pc + 1 };
                let found = completions(step, &self.query, &self.editing_part_abstract, entries);
                let ghost c0 = strings_of(self.possible_commands@);
                let ghost fs = strings_of(found@);
                let ghost w0 = self@;
                let mut i: usize = 0;
                while i < found.len()
                    invariant
                        i <= found@.len(),
                        fs == strings_of(found@),
                        strings_of(self.possible_commands@) == c0 + fs.take(i as int),
                        self@ == (QctWorkerV { possible_commands: strings_of(self.possible_commands@), ..w0 }),
                        messages_v(msgs@) == Seq::new(
                            i as nat,
                            |k: int| QctCompletionsV::SetEntry((c0.len() + k) as usize, fs[k]),
                        ),
                        completions_applied(c0, messages_v(msgs@)) == strings_of(self.possible_commands@),
                    decreases found@.len() - i,
                {
                    let len = self.possible_commands.len();
                    let s = found[i].clone();
                    let ghost before = strings_of(self.possible_commands@);
                    let ghost mbefore = messages_v(msgs@);
                    assert(before.len() == self.possible_commands@.len());
                    assert(fs.take(i as int).len() == i);
                    assert(len == c0.len() + i);
                    msgs.push(QctCompletions::SetEntry(len, s.clone()));
                    self.possible_commands.push(s);
                    proof {
                        assert(messages_v(msgs@) =~= mbefore.push(QctCompletionsV::SetEntry(len, fs[i as int])));
                        assert(messages_v(msgs@).drop_last() =~= mbefore);
                        assert(messages_v(msgs@).last() == QctCompletionsV::SetEntry(len, fs[i as int]));
                        assert(before + Seq::new((len - before.len()) as nat, |k: int| Seq::<char>::empty())
                            + seq![fs[i as int]] =~= strings_of(self.possible_commands@));
                        assert(strings_of(self.possible_commands@) =~= c0 + fs.take(i + 1));
                        assert(messages_v(msgs@) =~= Seq::new(
                            (i + 1) as nat,
                            |k: int| QctCompletionsV::SetEntry((c0.len() + k) as usize, fs[k]),
                        ));
                    }
                    i = i + 1;
                }
                assert(fs.take(i as int) =~= fs);
                if step >= 5 {
                    self.processing_command = None;
                } else {
                    self.processing_command = Some(step);
                }
                msgs
            },
        }
    }
}

} // verus!
