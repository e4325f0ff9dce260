//! The aliases of snaps' apps: the answer that lists them and the command that changes them.
use std::borrow::Cow;

use vstd::prelude::*;

use super::command::{read_command, SnapCommand};
use super::json::{distinct_keys, keys_distinct, str_field, text_eq, JsonValue, ParseError};
use super::snap::{cow_clone, cow_str, empty_cow, owned_cow, App, SnapName, ToOwnedInner};
use super::{FromJson, Get};

verus! {

/// An alias: a name under which an app of a snap can be run.
#[derive(Debug, Hash, PartialEq, Eq)]
pub struct SnapAlias<'a>(pub Cow<'a, str>);

impl<'a> View for SnapAlias<'a> {
    type V = Seq<char>;

    open spec fn view(&self) -> Seq<char> {
        self.0@
    }
}

impl<'a> SnapAlias<'a> {
    /// The text of the value.
    pub fn as_str(&self) -> (r: &str)
        ensures
            r@ == self@,
    {
        cow_str(&self.0)
    }
}

impl<'a> Clone for SnapAlias<'a> {
    fn clone(&self) -> (r: Self)
        ensures
            r@ == self@,
    {
        SnapAlias(cow_clone(&self.0))
    }
}

impl<'a> Default for SnapAlias<'a> {
    fn default() -> (r: Self)
        ensures
            r@ == Seq::<char>::empty(),
    {
        SnapAlias(empty_cow())
    }
}

impl<'a> From<&'a str> for SnapAlias<'a> {
    fn from(val: &'a str) -> (r: Self) {
        SnapAlias(Cow::Borrowed(val))
    }
}

impl<'a> vstd::std_specs::convert::FromSpecImpl<&'a str> for SnapAlias<'a> {
    open spec fn obeys_from_spec() -> bool {
        true
    }

    open spec fn from_spec(val: &'a str) -> Self {
        SnapAlias(Cow::Borrowed(val))
    }
}

impl<'a> From<String> for SnapAlias<'a> {
    fn from(val: String) -> (r: Self) {
        SnapAlias(Cow::Owned(val))
    }
}

impl<'a> vstd::std_specs::convert::FromSpecImpl<String> for SnapAlias<'a> {
    open spec fn obeys_from_spec() -> bool {
        true
    }

    open spec fn from_spec(val: String) -> Self {
        SnapAlias(Cow::Owned(val))
    }
}

impl<'a> ToOwnedInner for SnapAlias<'a> {
    type Other = SnapAlias<'static>;

    fn to_owned_inner(self) -> (r: SnapAlias<'static>)
        ensures
            r@ == self@,
            r.0 is Owned,
    {
        SnapAlias(owned_cow(self.0))
    }
}


/// How an alias came to be, and the app it runs.
#[derive(Debug, Hash, PartialEq, Eq)]
pub enum AliasStatus<'a> {
    /// Declared by the snap itself.
    Auto { app_name: App<'a> },
    /// Set by the user.
    Manual { app_name: App<'a> },
    /// Turned off.
    Disabled,
}

/// An alias status as plain values.
pub enum AliasStatusView {
    Auto(Seq<char>),
    Manual(Seq<char>),
    Disabled,
}

impl<'a> View for AliasStatus<'a> {
    type V = AliasStatusView;

    open spec fn view(&self) -> AliasStatusView {
        match self {
            AliasStatus::Auto { app_name } => AliasStatusView::Auto(app_name@),
            AliasStatus::Manual { app_name } => AliasStatusView::Manual(app_name@),
            AliasStatus::Disabled => AliasStatusView::Disabled,
        }
    }
}

/// One alias: the command it runs and its status.
#[derive(Debug, Hash, PartialEq, Eq)]
pub struct AliasInfo<'a> {
    pub command: SnapCommand<'a, 'a>,
    pub status: AliasStatus<'a>,
}

/// An alias as plain values: the command's name and app, and the status.
pub type AliasInfoView = ((Seq<char>, Option<Seq<char>>), AliasStatusView);

impl<'a> View for AliasInfo<'a> {
    type V = AliasInfoView;

    open spec fn view(&self) -> AliasInfoView {
        ((self.command.name@, self.command.app_text()), self.status@)
    }
}

/// The aliases of each snap. Read from an answer, each snap and each alias of a snap appears
/// once (see `wf`).
#[derive(Debug, PartialEq, Eq)]
pub struct Aliases<'a>(pub Vec<(SnapName<'a>, Vec<(SnapAlias<'a>, AliasInfo<'a>)>)>);

/// The aliases of one snap as plain values.
pub type SnapAliasesView = Seq<(Seq<char>, AliasInfoView)>;

/// The aliases of one snap as plain values.
pub open spec fn snap_aliases_view<'a>(v: Seq<(SnapAlias<'a>, AliasInfo<'a>)>) -> SnapAliasesView {
    v.map_values(|e: (SnapAlias<'a>, AliasInfo<'a>)| (e.0@, e.1@))
}

/// The aliases of each snap as plain values.
pub open spec fn aliases_view<'a>(v: Seq<(SnapName<'a>, Vec<(SnapAlias<'a>, AliasInfo<'a>)>)>) -> Seq<(Seq<char>, SnapAliasesView)> {
    v.map_values(
        |e: (SnapName<'a>, Vec<(SnapAlias<'a>, AliasInfo<'a>)>)| (e.0@, snap_aliases_view(e.1@)),
    )
}

impl<'a> View for Aliases<'a> {
    type V = Seq<(Seq<char>, SnapAliasesView)>;

    open spec fn view(&self) -> Self::V {
        aliases_view(self.0@)
    }
}

/// What the status members of alias object `v` read as.
pub open spec fn status_decoded(v: JsonValue) -> Option<AliasStatusView> {
    match str_field(v, "status"@) {
        Some(s) => {
            if s == "auto"@ {
                match str_field(v, "auto"@) {
                    Some(a) => Some(AliasStatusView::Auto(a)),
                    None => None,
                }
            } else if s == "manual"@ {
                match str_field(v, "manual"@) {
                    Some(a) => Some(AliasStatusView::Manual(a)),
                    None => None,
                }
            } else if s == "disabled"@ {
                Some(AliasStatusView::Disabled)
            } else {
                None
            }
        },
        None => None,
    }
}

/// What alias object `v` reads as.
pub open spec fn info_decoded(v: JsonValue) -> Option<AliasInfoView> {
    match (str_field(v, "command"@), status_decoded(v)) {
        (Some(c), Some(s)) => Some((read_command(c), s)),
        _ => None,
    }
}

/// What the members of one snap's object read as: each alias with what its object reads as.
pub open spec fn infos_decoded(ms: Seq<(String, JsonValue)>) -> Option<SnapAliasesView>
    decreases ms.len(),
{
    if ms.len() == 0 {
        Some(Seq::empty())
    } else {
        match (infos_decoded(ms.drop_last()), info_decoded(ms.last().1)) {
            (Some(p), Some(i)) => Some(p.push((ms.last().0@, i))),
            _ => None,
        }
    }
}

/// What one snap's object reads as.
pub open spec fn snap_decoded(v: JsonValue) -> Option<SnapAliasesView> {
    match v {
        JsonValue::Object(ms) => if keys_distinct(ms@) {
            infos_decoded(ms@)
        } else {
            None
        },
        _ => None,
    }
}

/// What the members of the aliases object read as: each snap with what its object reads as.
pub open spec fn snaps_decoded(ms: Seq<(String, JsonValue)>) -> Option<Seq<(Seq<char>, SnapAliasesView)>>
    decreases ms.len(),
{
    if ms.len() == 0 {
        Some(Seq::empty())
    } else {
        match (snaps_decoded(ms.drop_last()), snap_decoded(ms.last().1)) {
            (Some(p), Some(i)) => Some(p.push((ms.last().0@, i))),
            _ => None,
        }
    }
}

/// An owned copy of `s`.
fn owned_string(s: &String) -> (r: String)
    ensures
        r@ == s@,
{
    s.clone()
}

impl<'a> AliasStatus<'a> {
    /// Reads the status members of alias object `v`.
    pub fn from_json(v: &JsonValue) -> (r: Result<Self, ParseError>)
        ensures
            match status_decoded(*v) {
                Some(m) => r matches Ok(x) && x@ == m,
                None => r == Err::<Self, ParseError>(ParseError::Shape),
            },
    {
        let status = match v.get_str("status") {
            Some(s) => s,
            None => {
                return Err(ParseError::Shape);
            },
        };
        if text_eq(status.as_str(), "auto") {
            match v.get_str("auto") {
                Some(a) => Ok(AliasStatus::Auto { app_name: App(Cow::Owned(owned_string(a))) }),
                None => Err(ParseError::Shape),
            }
        } else if text_eq(status.as_str(), "manual") {
            match v.get_str("manual") {
                Some(a) => Ok(AliasStatus::Manual { app_name: App(Cow::Owned(owned_string(a))) }),
                None => Err(ParseError::Shape),
            }
        } else if text_eq(status.as_str(), "disabled") {
            Ok(AliasStatus::Disabled)
        } else {
            Err(ParseError::Shape)
        }
    }
}

impl<'a> AliasInfo<'a> {
    /// Reads alias object `v`.
    pub fn from_json(v: &JsonValue) -> (r: Result<Self, ParseError>)
        ensures
            match info_decoded(*v) {
                Some(m) => r matches Ok(x) && x@ == m,
                None => r == Err::<Self, ParseError>(ParseError::Shape),
            },
    {
        let command = match v.get_str("command") {
            Some(c) => SnapCommand::from_raw_owned(owned_string(c)),
            None => {
                return Err(ParseError::Shape);
            },
        };
        let status = AliasStatus::from_json(v)?;
        Ok(AliasInfo { command, status })
    }
}

/// Reads the aliases of one snap from its object `v`.
fn snap_aliases_from_json<'a>(v: &JsonValue) -> (r: Result<Vec<(SnapAlias<'a>, AliasInfo<'a>)>, ParseError>)
    ensures
        match snap_decoded(*v) {
            Some(m) => r matches Ok(x) && snap_aliases_view(x@) == m,
            None => r == Err::<Vec<(SnapAlias<'a>, AliasInfo<'a>)>, ParseError>(ParseError::Shape),
        },
{
    let members = match v {
        JsonValue::Object(ms) => ms,
        _ => {
            return Err(ParseError::Shape);
        },
    };
    if !distinct_keys(members) {
        return Err(ParseError::Shape);
    }
    let mut out: Vec<(SnapAlias<'a>, AliasInfo<'a>)> = Vec::new();
    let mut i: usize = 0;
    while i < members.len()
        invariant
            i <= members@.len(),
            snap_decoded(*v) == infos_decoded(members@),
            infos_decoded(members@.subrange(0, i as int)) == Some(snap_aliases_view(out@)),
        decreases members@.len() - i,
    {
        let ghost prefix = members@.subrange(0, i as int + 1);
        assert(prefix.drop_last() =~= members@.subrange(0, i as int));
        let info = AliasInfo::from_json(&members[i].1);
        match info {
            Ok(info) => {
                let alias = SnapAlias(Cow::Owned(owned_string(&members[i].0)));
                out.push((alias, info));
                assert(snap_aliases_view(out@) =~= snap_aliases_view(out@.drop_last()).push(
                    (members@[i as int].0@, info_decoded(members@[i as int].1)->Some_0),
                ));
            },
            Err(e) => {
                proof {
                    lemma_infos_decoded_prefix(members@, i as int + 1);
                }
                return Err(e);
            },
        }
        i = i + 1;
    }
    assert(members@.subrange(0, i as int) =~= members@);
    Ok(out)
}

/// Where a prefix of `ms` does not read, `ms` does not either.
pub proof fn lemma_infos_decoded_prefix(ms: Seq<(String, JsonValue)>, n: int)
    requires
        0 <= n <= ms.len(),
        infos_decoded(ms.subrange(0, n)).is_none(),
    ensures
        infos_decoded(ms).is_none(),
    decreases ms.len() - n,
{
    if n < ms.len() {
        let longer = ms.subrange(0, n + 1);
        assert(longer.drop_last() =~= ms.subrange(0, n));
        lemma_infos_decoded_prefix(ms, n + 1);
    } else {
        assert(ms.subrange(0, n) =~= ms);
    }
}

/// Where a prefix of `ms` does not read, `ms` does not either.
pub proof fn lemma_snaps_decoded_prefix(ms: Seq<(String, JsonValue)>, n: int)
    requires
        0 <= n <= ms.len(),
        snaps_decoded(ms.subrange(0, n)).is_none(),
    ensures
        snaps_decoded(ms).is_none(),
    decreases ms.len() - n,
{
    if n < ms.len() {
        let longer = ms.subrange(0, n + 1);
        assert(longer.drop_last() =~= ms.subrange(0, n));
        lemma_snaps_decoded_prefix(ms, n + 1);
    } else {
        assert(ms.subrange(0, n) =~= ms);
    }
}

impl<'a> FromJson for Aliases<'a> {
    open spec fn decoded(v: JsonValue) -> Option<Self::V> {
        match v {
            JsonValue::Object(ms) => if keys_distinct(ms@) {
                snaps_decoded(ms@)
            } else {
                None
            },
            _ => None,
        }
    }

    /// Reads the object that maps each snap to the object of its aliases. An object that
    /// names a snap, or an alias of one snap, twice does not read.
    fn from_json(v: &JsonValue) -> (r: Result<Self, ParseError>)
        ensures
            r matches Ok(x) ==> x.wf(),
    {
        proof {
            lemma_decoded_aliases_unique(*v);
        }
        let members = match v {
            JsonValue::Object(ms) => ms,
            _ => {
                return Err(ParseError::Shape);
            },
        };
        if !distinct_keys(members) {
            return Err(ParseError::Shape);
        }
        let mut out: Vec<(SnapName<'a>, Vec<(SnapAlias<'a>, AliasInfo<'a>)>)> = Vec::new();
        let mut i: usize = 0;
        while i < members.len()
            invariant
                i <= members@.len(),
                Self::decoded(*v) == snaps_decoded(members@),
                snaps_decoded(members@.subrange(0, i as int)) == Some(aliases_view(out@)),
            decreases members@.len() - i,
        {
            let ghost prefix = members@.subrange(0, i as int + 1);
            assert(prefix.drop_last() =~= members@.subrange(0, i as int));
            let aliases = snap_aliases_from_json(&members[i].1);
            match aliases {
                Ok(aliases) => {
                    let name = SnapName(Cow::Owned(owned_string(&members[i].0)));
                    let ghost before = out@;
                    out.push((name, aliases));
                    assert(aliases_view(out@) =~= aliases_view(before).push(
                        (members@[i as int].0@, snap_decoded(members@[i as int].1)->Some_0),
                    ));
                },
                Err(e) => {
                    proof {
                        lemma_snaps_decoded_prefix(members@, i as int + 1);
                    }
                    return Err(e);
                },
            }
            i = i + 1;
        }
        assert(members@.subrange(0, i as int) =~= members@);
        Ok(Aliases(out))
    }
}

/// The call that lists every alias of every snap.
#[derive(Debug, Clone, Copy, PartialEq, Eq)]
pub struct GetAliases;

impl Get for GetAliases {
    open spec fn reference_spec(&self) -> Seq<char> {
        "/v2/aliases"@
    }

    fn reference(&self) -> (r: String) {
        String::from_str("/v2/aliases")
    }
    open spec fn headers_spec(&self) -> Seq<(Seq<char>, Seq<char>)> {
        super::json_headers_spec()
    }

    fn headers(&self) -> (r: Vec<(String, String)>) {
        super::json_headers()
    }
}

/// Whether no two entries of `v` have the same name.
pub open spec fn names_unique<T>(v: Seq<(Seq<char>, T)>) -> bool {
    forall|i: int, j: int| 0 <= i < j < v.len() ==> v[i].0 != v[j].0
}

impl<'a> Aliases<'a> {
    /// Each snap appears once, and each alias once among those of its snap.
    pub open spec fn wf(&self) -> bool {
        &&& names_unique(self@)
        &&& forall|k: int| 0 <= k < self@.len() ==> names_unique(#[trigger] self@[k].1)
    }
}

/// The aliases that the members of one snap's object read as are named by those members, in
/// their order.
pub proof fn lemma_infos_decoded_names(ms: Seq<(String, JsonValue)>)
    ensures
        infos_decoded(ms) matches Some(p) ==> p.len() == ms.len() && forall|i: int|
            0 <= i < ms.len() ==> #[trigger] p[i].0 == ms[i].0@,
    decreases ms.len(),
{
    if ms.len() > 0 {
        lemma_infos_decoded_names(ms.drop_last());
    }
}

/// The snaps that the members of the aliases object read as are named by those members, in
/// their order, each with what its member's object reads as.
pub proof fn lemma_snaps_decoded_names(ms: Seq<(String, JsonValue)>)
    ensures
        snaps_decoded(ms) matches Some(p) ==> p.len() == ms.len() && forall|i: int|
            0 <= i < ms.len() ==> #[trigger] p[i] == (ms[i].0@, snap_decoded(ms[i].1)->Some_0)
                && snap_decoded(ms[i].1) is Some,
    decreases ms.len(),
{
    if ms.len() > 0 {
        lemma_snaps_decoded_names(ms.drop_last());
    }
}

/// What an answer reads as names each snap once, and each alias once among those of its snap.
pub proof fn lemma_decoded_aliases_unique(v: JsonValue)
    ensures
        <Aliases<'static> as FromJson>::decoded(v) matches Some(m) ==> names_unique(m) && forall|
            k: int,
        | 0 <= k < m.len() ==> names_unique(#[trigger] m[k].1),
{
    if let JsonValue::Object(ms) = v {
        if keys_distinct(ms@) {
            lemma_snaps_decoded_names(ms@);
            if let Some(m) = snaps_decoded(ms@) {
                assert forall|k: int| 0 <= k < m.len() implies names_unique(#[trigger] m[k].1) by {
                    let inner = ms@[k].1;
                    if let JsonValue::Object(ims) = inner {
                        lemma_infos_decoded_names(ims@);
                    }
                }
            }
        }
    }
}

/// A change to the aliases of a snap, sent to the daemon as a JSON object whose `action` member
/// names the change.
#[derive(Debug, PartialEq, Eq)]
pub enum AliasCommand<'a> {
    /// Make `alias` run `app` of `snap`.
    Alias { snap: SnapName<'a>, alias: SnapAlias<'a>, app: Option<App<'a>> },
    /// Remove `alias`.
    Unalias { snap: Option<SnapName<'a>>, alias: SnapAlias<'a>, app: Option<App<'a>> },
    /// Prefer the aliases of `snap` over those of other snaps.
    Prefer { snap: SnapName<'a>, alias: SnapAlias<'a>, app: Option<App<'a>> },
}

/// A member `key` with text `value`, where there is a value.
pub open spec fn optional_member(key: Seq<char>, value: Option<Seq<char>>) -> Seq<(Seq<char>, Seq<char>)> {
    match value {
        Some(v) => seq![(key, v)],
        None => Seq::empty(),
    }
}

/// The members of an alias command's object: the action, then the snap, the alias and the app,
/// each of the optional ones only where it is given.
pub open spec fn alias_command_members(
    action: Seq<char>,
    snap: Option<Seq<char>>,
    alias: Seq<char>,
    app: Option<Seq<char>>,
) -> Seq<(Seq<char>, Seq<char>)> {
    seq![("action"@, action)] + optional_member("snap"@, snap) + seq![("alias"@, alias)]
        + optional_member("app"@, app)
}

/// The text of an optional value.
pub open spec fn optional_text<T: View<V = Seq<char>>>(v: Option<T>) -> Option<Seq<char>> {
    match v {
        Some(x) => Some(x@),
        None => None,
    }
}

/// The members of an object whose members are all strings, as plain values.
pub open spec fn string_members(ms: Seq<(String, JsonValue)>) -> Option<Seq<(Seq<char>, Seq<char>)>>
    decreases ms.len(),
{
    if ms.len() == 0 {
        Some(Seq::empty())
    } else {
        match (string_members(ms.drop_last()), ms.last().1) {
            (Some(p), JsonValue::Str(s)) => Some(p.push((ms.last().0@, s@))),
            _ => None,
        }
    }
}

/// Adds member `key` with text `value`.
fn push_member(ms: &mut Vec<(String, JsonValue)>, key: &str, value: &str)
    requires
        string_members(old(ms)@).is_some(),
    ensures
        string_members(final(ms)@) == Some(string_members(old(ms)@)->Some_0.push((key@, value@))),
{
    ms.push((String::from_str(key), JsonValue::Str(String::from_str(value))));
    assert(final(ms)@.drop_last() =~= old(ms)@);
}

impl<'a> AliasCommand<'a> {
    /// The members that the command's object holds.
    pub open spec fn members(&self) -> Seq<(Seq<char>, Seq<char>)> {
        match self {
            AliasCommand::Alias { snap, alias, app } => alias_command_members(
                "alias"@,
                Some(snap@),
                alias@,
                optional_text(*app),
            ),
            AliasCommand::Unalias { snap, alias, app } => alias_command_members(
                "unalias"@,
                optional_text(*snap),
                alias@,
                optional_text(*app),
            ),
            AliasCommand::Prefer { snap, alias, app } => alias_command_members(
                "prefer"@,
                Some(snap@),
                alias@,
                optional_text(*app),
            ),
        }
    }

    /// The JSON object that asks the daemon for this change.
    pub fn to_json(&self) -> (r: JsonValue)
        ensures
            r matches JsonValue::Object(ms) && string_members(ms@) == Some(self.members()),
    {
        let (action, snap, alias, app) = match self {
            AliasCommand::Alias { snap, alias, app } => ("alias", Some(snap), alias, app),
            AliasCommand::Unalias { snap, alias, app } => ("unalias", snap.as_ref(), alias, app),
            AliasCommand::Prefer { snap, alias, app } => ("prefer", Some(snap), alias, app),
        };
        proof {
            reveal_strlit("alias");
            reveal_strlit("unalias");
            reveal_strlit("prefer");
        }
        let mut ms: Vec<(String, JsonValue)> = Vec::new();
        assert(string_members(ms@) == Some(Seq::<(Seq<char>, Seq<char>)>::empty()));
        push_member(&mut ms, "action", action);
        match snap {
            Some(s) => push_member(&mut ms, "snap", s.as_str()),
            None => {},
        }
        push_member(&mut ms, "alias", alias.as_str());
        match app {
            Some(a) => push_member(&mut ms, "app", a.as_str()),
            None => {},
        }
        assert(string_members(ms@)->Some_0 =~= self.members());
        JsonValue::Object(ms)
    }
}

} // verus!
