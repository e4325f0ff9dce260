//! Names, ids and commands of snaps.
//!
//! Each string type holds either a borrowed slice of the text it was read from or an owned
//! copy of it; `to_owned_inner` promotes a borrowed value to an owned one with the same text.
use std::borrow::Cow;

use vstd::prelude::*;

verus! {

/// Index `i` holds the first `.` of `s`.
pub open spec fn is_first_dot(s: Seq<char>, i: int) -> bool {
    &&& 0 <= i < s.len()
    &&& s[i] == '.'
    &&& forall|j: int| 0 <= j < i ==> s[j] != '.'
}

/// `s` split at its first `.` into the part before it and the part after it, if it holds one.
pub open spec fn split_command(s: Seq<char>) -> Option<(Seq<char>, Seq<char>)> {
    if exists|i: int| is_first_dot(s, i) {
        let i = choose|i: int| is_first_dot(s, i);
        Some((s.subrange(0, i), s.subrange(i + 1, s.len() as int)))
    } else {
        None
    }
}

/// The text of a command: its name, a `.` and its app.
pub open spec fn joined_command(name: Seq<char>, app: Seq<char>) -> Seq<char> {
    name + seq!['.'] + app
}

/// Finds the first `.` of `s`.
pub fn find_dot(s: &str) -> (r: Option<usize>)
    ensures
        match r {
            Some(i) => is_first_dot(s@, i as int),
            None => forall|j: int| 0 <= j < s@.len() ==> s@[j] != '.',
        },
{
    let n = s.unicode_len();
    let mut i: usize = 0;
    while i < n
        invariant
            n == s@.len(),
            i <= n,
            forall|j: int| 0 <= j < i ==> s@[j] != '.',
        decreases n - i,
    {
        if s.get_char(i) == '.' {
            return Some(i);
        }
        i = i + 1;
    }
    None
}

/// Splits `s` at its first `.`.
pub fn split_once_dot(s: &str) -> (r: Option<(&str, &str)>)
    ensures
        match r {
            Some((a, b)) => split_command(s@) == Some((a@, b@)),
            None => split_command(s@).is_none(),
        },
{
    match find_dot(s) {
        Some(i) => {
            let n = s.unicode_len();
            let a = s.substring_char(0, i);
            let b = s.substring_char(i + 1, n);
            proof {
                let k = choose|k: int| is_first_dot(s@, k);
                assert(is_first_dot(s@, k));
                if k < i {
                    assert(s@[k] != '.');
                } else if k > i {
                    assert(s@[i as int] != '.');
                }
            }
            Some((a, b))
        },
        None => {
            assert(!exists|k: int| is_first_dot(s@, k));
            None
        },
    }
}

/// A value that borrows from the text it was read from and can be made to own that text.
pub trait ToOwnedInner {
    type Other;

    fn to_owned_inner(self) -> Self::Other;
}

/// The text that `s` holds, borrowed or owned.
pub fn cow_str<'c>(s: &'c Cow<'_, str>) -> (r: &'c str)
    ensures
        r@ == s@,
{
    match s {
        Cow::Borrowed(b) => b,
        Cow::Owned(o) => o.as_str(),
    }
}

/// A second value with the text of `s`, borrowing where `s` borrows.
pub fn cow_clone<'a>(s: &Cow<'a, str>) -> (r: Cow<'a, str>)
    ensures
        r@ == s@,
{
    match s {
        Cow::Borrowed(b) => Cow::Borrowed(b),
        Cow::Owned(o) => Cow::Owned(o.clone()),
    }
}

/// An empty text.
pub fn empty_cow<'a>() -> (r: Cow<'a, str>)
    ensures
        r@ == Seq::<char>::empty(),
{
    let e: &'static str = "";
    proof {
        reveal_strlit("");
    }
    Cow::Borrowed(e)
}

/// A copy of `s` that owns its text.
pub fn owned_cow<'a, 'b>(s: Cow<'a, str>) -> (r: Cow<'b, str>)
    ensures
        r@ == s@,
        r is Owned,
{
    match s {
        Cow::Borrowed(b) => Cow::Owned(b.to_owned()),
        Cow::Owned(o) => Cow::Owned(o),
    }
}

/// The name of a snap, for instance `steam`.
///
/// A name is unique among snaps, though its author may change it; a `SnapId` never changes.
#[derive(Debug, Hash, PartialEq, Eq)]
pub struct SnapName<'a>(pub Cow<'a, str>);

impl<'a> View for SnapName<'a> {
    type V = Seq<char>;

    open spec fn view(&self) -> Seq<char> {
        self.0@
    }
}

impl<'a> SnapName<'a> {
    /// The text of the value.
    pub fn as_str(&self) -> (r: &str)
        ensures
            r@ == self@,
    {
        cow_str(&self.0)
    }
}

impl<'a> Clone for SnapName<'a> {
    fn clone(&self) -> (r: Self)
        ensures
            r@ == self@,
    {
        SnapName(cow_clone(&self.0))
    }
}

impl<'a> Default for SnapName<'a> {
    fn default() -> (r: Self)
        ensures
            r@ == Seq::<char>::empty(),
    {
        SnapName(empty_cow())
    }
}

impl<'a> From<&'a str> for SnapName<'a> {
    fn from(val: &'a str) -> (r: Self) {
        SnapName(Cow::Borrowed(val))
    }
}

impl<'a> vstd::std_specs::convert::FromSpecImpl<&'a str> for SnapName<'a> {
    open spec fn obeys_from_spec() -> bool {
        true
    }

    open spec fn from_spec(val: &'a str) -> Self {
        SnapName(Cow::Borrowed(val))
    }
}

impl<'a> From<String> for SnapName<'a> {
    fn from(val: String) -> (r: Self) {
        SnapName(Cow::Owned(val))
    }
}

impl<'a> vstd::std_specs::convert::FromSpecImpl<String> for SnapName<'a> {
    open spec fn obeys_from_spec() -> bool {
        true
    }

    open spec fn from_spec(val: String) -> Self {
        SnapName(Cow::Owned(val))
    }
}

impl<'a> ToOwnedInner for SnapName<'a> {
    type Other = SnapName<'static>;

    fn to_owned_inner(self) -> (r: SnapName<'static>)
        ensures
            r@ == self@,
            r.0 is Owned,
    {
        SnapName(owned_cow(self.0))
    }
}

/// One app of a snap: in the command `lxd.lxc` of the `lxd` snap, the app is `lxc`.
#[derive(Debug, Hash, PartialEq, Eq)]
pub struct App<'a>(pub Cow<'a, str>);

impl<'a> View for App<'a> {
    type V = Seq<char>;

    open spec fn view(&self) -> Seq<char> {
        self.0@
    }
}

impl<'a> App<'a> {
    /// The text of the value.
    pub fn as_str(&self) -> (r: &str)
        ensures
            r@ == self@,
    {
        cow_str(&self.0)
    }
}

impl<'a> Clone for App<'a> {
    fn clone(&self) -> (r: Self)
        ensures
            r@ == self@,
    {
        App(cow_clone(&self.0))
    }
}

impl<'a> Default for App<'a> {
    fn default() -> (r: Self)
        ensures
            r@ == Seq::<char>::empty(),
    {
        App(empty_cow())
    }
}

impl<'a> From<&'a str> for App<'a> {
    fn from(val: &'a str) -> (r: Self) {
        App(Cow::Borrowed(val))
    }
}

impl<'a> vstd::std_specs::convert::FromSpecImpl<&'a str> for App<'a> {
    open spec fn obeys_from_spec() -> bool {
        true
    }

    open spec fn from_spec(val: &'a str) -> Self {
        App(Cow::Borrowed(val))
    }
}

impl<'a> From<String> for App<'a> {
    fn from(val: String) -> (r: Self) {
        App(Cow::Owned(val))
    }
}

impl<'a> vstd::std_specs::convert::FromSpecImpl<String> for App<'a> {
    open spec fn obeys_from_spec() -> bool {
        true
    }

    open spec fn from_spec(val: String) -> Self {
        App(Cow::Owned(val))
    }
}

impl<'a> ToOwnedInner for App<'a> {
    type Other = App<'static>;

    fn to_owned_inner(self) -> (r: App<'static>)
        ensures
            r@ == self@,
            r.0 is Owned,
    {
        App(owned_cow(self.0))
    }
}

/// The id of a snap, which stays the same whatever happens to the snap.
#[derive(Debug, Hash, PartialEq, Eq)]
pub struct SnapId<'a>(pub Cow<'a, str>);

impl<'a> View for SnapId<'a> {
    type V = Seq<char>;

    open spec fn view(&self) -> Seq<char> {
        self.0@
    }
}

impl<'a> SnapId<'a> {
    /// The text of the value.
    pub fn as_str(&self) -> (r: &str)
        ensures
            r@ == self@,
    {
        cow_str(&self.0)
    }
}

impl<'a> Clone for SnapId<'a> {
    fn clone(&self) -> (r: Self)
        ensures
            r@ == self@,
    {
        SnapId(cow_clone(&self.0))
    }
}

impl<'a> Default for SnapId<'a> {
    fn default() -> (r: Self)
        ensures
            r@ == Seq::<char>::empty(),
    {
        SnapId(empty_cow())
    }
}

impl<'a> From<&'a str> for SnapId<'a> {
    fn from(val: &'a str) -> (r: Self) {
        SnapId(Cow::Borrowed(val))
    }
}

impl<'a> vstd::std_specs::convert::FromSpecImpl<&'a str> for SnapId<'a> {
    open spec fn obeys_from_spec() -> bool {
        true
    }

    open spec fn from_spec(val: &'a str) -> Self {
        SnapId(Cow::Borrowed(val))
    }
}

impl<'a> From<String> for SnapId<'a> {
    fn from(val: String) -> (r: Self) {
        SnapId(Cow::Owned(val))
    }
}

impl<'a> vstd::std_specs::convert::FromSpecImpl<String> for SnapId<'a> {
    open spec fn obeys_from_spec() -> bool {
        true
    }

    open spec fn from_spec(val: String) -> Self {
        SnapId(Cow::Owned(val))
    }
}

impl<'a> ToOwnedInner for SnapId<'a> {
    type Other = SnapId<'static>;

    fn to_owned_inner(self) -> (r: SnapId<'static>)
        ensures
            r@ == self@,
            r.0 is Owned,
    {
        SnapId(owned_cow(self.0))
    }
}



/// A command of a snap: the snap's name and one of its apps, written `name.app`, as `lxd.lxc`
/// for the `lxc` app of the `lxd` snap.
#[derive(Debug, Hash, PartialEq, Eq, Default)]
pub struct SnapCommand<'a, 'b> {
    pub name: SnapName<'a>,
    pub command: App<'b>,
}

/// The reason a command's text could not be read.
#[derive(Debug, Hash, PartialEq, Eq)]
pub enum SnapdDeserializeError<'a> {
    /// The text holds no `.` between a name and an app.
    MalformedCommand(Cow<'a, str>),
}

impl<'a> SnapdDeserializeError<'a> {
    /// The text that was read.
    pub open spec fn text(&self) -> Seq<char> {
        match self {
            SnapdDeserializeError::MalformedCommand(t) => t@,
        }
    }

    /// A sentence that describes the error.
    pub fn message(&self) -> (r: String)
        ensures
            r@ == "command string is malformed. expected [name].[command] got "@ + self.text()
                + "."@,
    {
        match self {
            SnapdDeserializeError::MalformedCommand(t) => {
                let mut r = String::from_str("command string is malformed. expected [name].[command] got ");
                r.append(cow_str(t));
                r.append(".");
                r
            },
        }
    }
}

impl<'a, 'b> SnapCommand<'a, 'b> {
    /// The command of app `command` of snap `name`.
    pub fn from_parts(name: SnapName<'a>, command: App<'b>) -> (r: Self)
        ensures
            r.name == name,
            r.command == command,
    {
        SnapCommand { name, command }
    }

    /// The command of app `command` of snap `name`, from anything that converts to them.
    pub fn from_convertible<N: Into<SnapName<'a>>, C: Into<App<'b>>>(name: N, command: C) -> (r: Self)
        ensures
            call_ensures(N::into, (name,), r.name),
            call_ensures(C::into, (command,), r.command),
    {
        Self::from_parts(name.into(), command.into())
    }

    /// Reads a command from its text `name.app`, split at the first `.`. The parts borrow
    /// from `raw_command`.
    pub fn from_raw<'c: 'a + 'b>(raw_command: &'c str) -> (r: Result<Self, SnapdDeserializeError<'c>>)
        ensures
            match split_command(raw_command@) {
                Some((n, c)) => r matches Ok(cmd) && cmd.name@ == n && cmd.command@ == c
                    && cmd.name.0 is Borrowed && cmd.command.0 is Borrowed,
                None => r matches Err(SnapdDeserializeError::MalformedCommand(t)) && t@
                    == raw_command@ && t is Borrowed,
            },
    {
        match split_once_dot(raw_command) {
            Some((name, command)) => Ok(Self::from_parts(SnapName(Cow::Borrowed(name)), App(Cow::Borrowed(command)))),
            None => Err(SnapdDeserializeError::MalformedCommand(Cow::Borrowed(raw_command))),
        }
    }

    /// Reads a command from its text `name.app`, split at the first `.`. The parts own their
    /// text.
    pub fn from_raw_owned(raw_command: String) -> (r: Result<Self, SnapdDeserializeError<'a>>)
        ensures
            match split_command(raw_command@) {
                Some((n, c)) => r matches Ok(cmd) && cmd.name@ == n && cmd.command@ == c
                    && cmd.name.0 is Owned && cmd.command.0 is Owned,
                None => r matches Err(SnapdDeserializeError::MalformedCommand(t)) && t@
                    == raw_command@ && t is Owned,
            },
    {
        let parsed = SnapCommand::from_raw(raw_command.as_str());
        match parsed {
            Ok(borrowed) => Ok(SnapCommand {
                name: SnapName(owned_cow(borrowed.name.0)),
                command: App(owned_cow(borrowed.command.0)),
            }),
            Err(_) => Err(SnapdDeserializeError::MalformedCommand(Cow::Owned(raw_command))),
        }
    }

    /// The command's text, `name.app`.
    pub fn to_string(&self) -> (r: String)
        ensures
            r@ == joined_command(self.name@, self.command@),
    {
        let mut r = String::from_str(self.name.as_str());
        r.append(".");
        r.append(self.command.as_str());
        proof {
            reveal_strlit(".");
        }
        r
    }
}

impl<'a, 'b> ToOwnedInner for SnapCommand<'a, 'b> {
    type Other = SnapCommand<'static, 'static>;

    fn to_owned_inner(self) -> (r: SnapCommand<'static, 'static>)
        ensures
            r.name@ == self.name@,
            r.command@ == self.command@,
            r.name.0 is Owned,
            r.command.0 is Owned,
    {
        SnapCommand { name: self.name.to_owned_inner(), command: self.command.to_owned_inner() }
    }
}

impl<'a, 'b> Clone for SnapCommand<'a, 'b> {
    fn clone(&self) -> (r: Self)
        ensures
            r.name@ == self.name@,
            r.command@ == self.command@,
    {
        SnapCommand { name: self.name.clone(), command: self.command.clone() }
    }
}

/// Writing a command as text and reading that text back gives the same name and app, whenever
/// the name holds no `.`.
pub proof fn lemma_command_text_round_trip(name: Seq<char>, app: Seq<char>)
    requires
        forall|j: int| 0 <= j < name.len() ==> name[j] != '.',
    ensures
        split_command(joined_command(name, app)) == Some((name, app)),
{
    let t = joined_command(name, app);
    let k = name.len() as int;
    assert(is_first_dot(t, k));
    let c = choose|i: int| is_first_dot(t, i);
    assert(c == k) by {
        if c < k {
            assert(t[c] == name[c]);
        } else if c > k {
            assert(t[k] == '.');
        }
    }
    assert(t.subrange(0, k) =~= name);
    assert(t.subrange(k + 1, t.len() as int) =~= app);
}

} // verus!
