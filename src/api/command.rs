//! The command of a snap written with or without its app: `lxd.lxc`, or `lxd` alone.
use std::borrow::Cow;

use vstd::prelude::*;

use super::snap::{joined_command, owned_cow, split_command, split_once_dot, App, SnapName, ToOwnedInner};

verus! {

/// A command of a snap: the snap's name and, where one is named, one of its apps.
#[derive(Debug, Hash, PartialEq, Eq, Default)]
pub struct SnapCommand<'a, 'b> {
    pub name: SnapName<'a>,
    pub command: Option<App<'b>>,
}

/// The text of a command whose app may be missing: the name alone where it is.
pub open spec fn command_text(name: Seq<char>, app: Option<Seq<char>>) -> Seq<char> {
    match app {
        Some(a) => joined_command(name, a),
        None => name,
    }
}

impl<'a, 'b> SnapCommand<'a, 'b> {
    /// The command of snap `name` with no app.
    pub fn name_only(name: SnapName<'a>) -> (r: Self)
        ensures
            r.name == name,
            r.command.is_none(),
    {
        SnapCommand { name, command: None }
    }

    /// The command of app `command` of snap `name`.
    pub fn from_parts(name: SnapName<'a>, command: App<'b>) -> (r: Self)
        ensures
            r.name == name,
            r.command == Some(command),
    {
        SnapCommand { name, command: Some(command) }
    }

    /// The command of app `command` of snap `name`, from anything that converts to them.
    pub fn from_convertible<N: Into<SnapName<'a>>, C: Into<App<'b>>>(name: N, command: C) -> (r: Self)
        ensures
            call_ensures(N::into, (name,), r.name),
            r.command matches Some(app) && call_ensures(C::into, (command,), app),
    {
        Self::from_parts(name.into(), command.into())
    }

    /// The text of the app, if the command names one.
    pub open spec fn app_text(&self) -> Option<Seq<char>> {
        match self.command {
            Some(a) => Some(a@),
            None => None,
        }
    }

    /// The command's text: `name.app`, or the name alone where no app is named.
    pub fn to_string(&self) -> (r: String)
        ensures
            r@ == command_text(self.name@, self.app_text()),
    {
        let mut r = String::from_str(self.name.as_str());
        match &self.command {
            Some(app) => {
                r.append(".");
                r.append(app.as_str());
                proof {
                    reveal_strlit(".");
                }
            },
            None => {},
        }
        r
    }
}

/// The name and app that the text `s` of a command holds: split at its first `.`, or the whole
/// text as the name where it holds none.
pub open spec fn read_command(s: Seq<char>) -> (Seq<char>, Option<Seq<char>>) {
    match split_command(s) {
        Some((n, a)) => (n, Some(a)),
        None => (s, None),
    }
}

impl<'a> SnapCommand<'a, 'a> {
    /// Reads a command from its text. The parts borrow from `raw_command`.
    pub fn from_raw(raw_command: &'a str) -> (r: Self)
        ensures
            (r.name@, r.app_text()) == read_command(raw_command@),
            r.name.0 is Borrowed,
            r.command matches Some(app) ==> app.0 is Borrowed,
    {
        match split_once_dot(raw_command) {
            Some((name, command)) => SnapCommand {
                name: SnapName(Cow::Borrowed(name)),
                command: Some(App(Cow::Borrowed(command))),
            },
            None => SnapCommand { name: SnapName(Cow::Borrowed(raw_command)), command: None },
        }
    }

    /// Reads a command from its text. The parts own their text.
    pub fn from_raw_owned(raw_command: String) -> (r: Self)
        ensures
            (r.name@, r.app_text()) == read_command(raw_command@),
            r.name.0 is Owned,
            r.command matches Some(app) ==> app.0 is Owned,
    {
        let borrowed = SnapCommand::from_raw(raw_command.as_str());
        borrowed.to_owned_inner()
    }
}

impl<'a, 'b> ToOwnedInner for SnapCommand<'a, 'b> {
    type Other = SnapCommand<'static, 'static>;

    fn to_owned_inner(self) -> (r: SnapCommand<'static, 'static>)
        ensures
            r.name@ == self.name@,
            r.app_text() == self.app_text(),
            r.name.0 is Owned,
            r.command matches Some(app) ==> app.0 is Owned,
    {
        let command = match self.command {
            Some(app) => Some(app.to_owned_inner()),
            None => None,
        };
        SnapCommand { name: self.name.to_owned_inner(), command }
    }
}

impl<'a, 'b> Clone for SnapCommand<'a, 'b> {
    fn clone(&self) -> (r: Self)
        ensures
            r.name@ == self.name@,
            r.app_text() == self.app_text(),
    {
        let command = match &self.command {
            Some(app) => Some(app.clone()),
            None => None,
        };
        SnapCommand { name: self.name.clone(), command }
    }
}

/// Writing a command as text and reading that text back gives the same name and app, whenever
/// the name holds no `.`; a text without `.` reads as a name alone.
pub proof fn lemma_command_text_read_back(name: Seq<char>, app: Option<Seq<char>>)
    requires
        forall|j: int| 0 <= j < name.len() ==> name[j] != '.',
    ensures
        read_command(command_text(name, app)) == (name, app),
{
    match app {
        Some(a) => {
            super::snap::lemma_command_text_round_trip(name, a);
        },
        None => {
            if exists|i: int| super::snap::is_first_dot(name, i) {
                let i = choose|i: int| super::snap::is_first_dot(name, i);
                assert(name[i] == '.');
            }
        },
    }
}

} // verus!
