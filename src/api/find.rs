//! Looking a snap up in the store, by name or by id, and the categories it is filed under.
use std::borrow::Cow;

use vstd::prelude::*;

use super::json::{field, str_field, JsonValue, ParseError};
use super::snap::{cow_clone, cow_str, empty_cow, owned_cow, SnapId, SnapName, ToOwnedInner};
use super::query::{encode_query_value, query_encoded};
use super::{FromJson, Get};

verus! {

/// Why a lookup found nothing to report.
#[derive(Debug, Clone, Copy, PartialEq, Eq)]
pub enum FindError {
    /// No snap matched.
    NoSnapsFound,
}

/// The call that looks a snap up by name.
#[derive(Debug, PartialEq, Eq)]
pub struct FindSnapByName<'a> {
    pub name: SnapName<'a>,
}

impl<'a> Get for FindSnapByName<'a> {
    open spec fn reference_spec(&self) -> Seq<char> {
        "/v2/find?name="@ + query_encoded(self.name@)
    }

    fn reference(&self) -> (r: String) {
        let mut r = String::from_str("/v2/find?name=");
        r.append(encode_query_value(self.name.as_str()).as_str());
        r
    }
    open spec fn headers_spec(&self) -> Seq<(Seq<char>, Seq<char>)> {
        super::json_headers_spec()
    }

    fn headers(&self) -> (r: Vec<(String, String)>) {
        super::json_headers()
    }
}

/// The call that looks a snap up by id.
#[derive(Debug, PartialEq, Eq)]
pub struct FindSnapById<'a> {
    pub id: SnapId<'a>,
}

impl<'a> Get for FindSnapById<'a> {
    open spec fn reference_spec(&self) -> Seq<char> {
        "/v2/find?common-id="@ + query_encoded(self.id@)
    }

    fn reference(&self) -> (r: String) {
        let mut r = String::from_str("/v2/find?common-id=");
        r.append(encode_query_value(self.id.as_str()).as_str());
        r
    }
    open spec fn headers_spec(&self) -> Seq<(Seq<char>, Seq<char>)> {
        super::json_headers_spec()
    }

    fn headers(&self) -> (r: Vec<(String, String)>) {
        super::json_headers()
    }
}

/// The title of a snap, as the store shows it.
#[derive(Debug, Hash, PartialEq, Eq)]
pub struct SnapTitle<'a>(pub Cow<'a, str>);

impl<'a> View for SnapTitle<'a> {
    type V = Seq<char>;

    open spec fn view(&self) -> Seq<char> {
        self.0@
    }
}

impl<'a> SnapTitle<'a> {
    /// The text of the value.
    pub fn as_str(&self) -> (r: &str)
        ensures
            r@ == self@,
    {
        cow_str(&self.0)
    }
}

impl<'a> Clone for SnapTitle<'a> {
    fn clone(&self) -> (r: Self)
        ensures
            r@ == self@,
    {
        SnapTitle(cow_clone(&self.0))
    }
}

impl<'a> Default for SnapTitle<'a> {
    fn default() -> (r: Self)
        ensures
            r@ == Seq::<char>::empty(),
    {
        SnapTitle(empty_cow())
    }
}

impl<'a> From<&'a str> for SnapTitle<'a> {
    fn from(val: &'a str) -> (r: Self) {
        SnapTitle(Cow::Borrowed(val))
    }
}

impl<'a> vstd::std_specs::convert::FromSpecImpl<&'a str> for SnapTitle<'a> {
    open spec fn obeys_from_spec() -> bool {
        true
    }

    open spec fn from_spec(val: &'a str) -> Self {
        SnapTitle(Cow::Borrowed(val))
    }
}

impl<'a> From<String> for SnapTitle<'a> {
    fn from(val: String) -> (r: Self) {
        SnapTitle(Cow::Owned(val))
    }
}

impl<'a> vstd::std_specs::convert::FromSpecImpl<String> for SnapTitle<'a> {
    open spec fn obeys_from_spec() -> bool {
        true
    }

    open spec fn from_spec(val: String) -> Self {
        SnapTitle(Cow::Owned(val))
    }
}

impl<'a> ToOwnedInner for SnapTitle<'a> {
    type Other = SnapTitle<'static>;

    fn to_owned_inner(self) -> (r: SnapTitle<'static>)
        ensures
            r@ == self@,
            r.0 is Owned,
    {
        SnapTitle(owned_cow(self.0))
    }
}

/// The one-line summary of a snap.
#[derive(Debug, Hash, PartialEq, Eq)]
pub struct Summary<'a>(pub Cow<'a, str>);

impl<'a> View for Summary<'a> {
    type V = Seq<char>;

    open spec fn view(&self) -> Seq<char> {
        self.0@
    }
}

impl<'a> Summary<'a> {
    /// The text of the value.
    pub fn as_str(&self) -> (r: &str)
        ensures
            r@ == self@,
    {
        cow_str(&self.0)
    }
}

impl<'a> Clone for Summary<'a> {
    fn clone(&self) -> (r: Self)
        ensures
            r@ == self@,
    {
        Summary(cow_clone(&self.0))
    }
}

impl<'a> Default for Summary<'a> {
    fn default() -> (r: Self)
        ensures
            r@ == Seq::<char>::empty(),
    {
        Summary(empty_cow())
    }
}

impl<'a> From<&'a str> for Summary<'a> {
    fn from(val: &'a str) -> (r: Self) {
        Summary(Cow::Borrowed(val))
    }
}

impl<'a> vstd::std_specs::convert::FromSpecImpl<&'a str> for Summary<'a> {
    open spec fn obeys_from_spec() -> bool {
        true
    }

    open spec fn from_spec(val: &'a str) -> Self {
        Summary(Cow::Borrowed(val))
    }
}

impl<'a> From<String> for Summary<'a> {
    fn from(val: String) -> (r: Self) {
        Summary(Cow::Owned(val))
    }
}

impl<'a> vstd::std_specs::convert::FromSpecImpl<String> for Summary<'a> {
    open spec fn obeys_from_spec() -> bool {
        true
    }

    open spec fn from_spec(val: String) -> Self {
        Summary(Cow::Owned(val))
    }
}

impl<'a> ToOwnedInner for Summary<'a> {
    type Other = Summary<'static>;

    fn to_owned_inner(self) -> (r: Summary<'static>)
        ensures
            r@ == self@,
            r.0 is Owned,
    {
        Summary(owned_cow(self.0))
    }
}

/// The description of a snap.
#[derive(Debug, Hash, PartialEq, Eq)]
pub struct Description<'a>(pub Cow<'a, str>);

impl<'a> View for Description<'a> {
    type V = Seq<char>;

    open spec fn view(&self) -> Seq<char> {
        self.0@
    }
}

impl<'a> Description<'a> {
    /// The text of the value.
    pub fn as_str(&self) -> (r: &str)
        ensures
            r@ == self@,
    {
        cow_str(&self.0)
    }
}

impl<'a> Clone for Description<'a> {
    fn clone(&self) -> (r: Self)
        ensures
            r@ == self@,
    {
        Description(cow_clone(&self.0))
    }
}

impl<'a> Default for Description<'a> {
    fn default() -> (r: Self)
        ensures
            r@ == Seq::<char>::empty(),
    {
        Description(empty_cow())
    }
}

impl<'a> From<&'a str> for Description<'a> {
    fn from(val: &'a str) -> (r: Self) {
        Description(Cow::Borrowed(val))
    }
}

impl<'a> vstd::std_specs::convert::FromSpecImpl<&'a str> for Description<'a> {
    open spec fn obeys_from_spec() -> bool {
        true
    }

    open spec fn from_spec(val: &'a str) -> Self {
        Description(Cow::Borrowed(val))
    }
}

impl<'a> From<String> for Description<'a> {
    fn from(val: String) -> (r: Self) {
        Description(Cow::Owned(val))
    }
}

impl<'a> vstd::std_specs::convert::FromSpecImpl<String> for Description<'a> {
    open spec fn obeys_from_spec() -> bool {
        true
    }

    open spec fn from_spec(val: String) -> Self {
        Description(Cow::Owned(val))
    }
}

impl<'a> ToOwnedInner for Description<'a> {
    type Other = Description<'static>;

    fn to_owned_inner(self) -> (r: Description<'static>)
        ensures
            r@ == self@,
            r.0 is Owned,
    {
        Description(owned_cow(self.0))
    }
}

/// The developer of a snap.
#[derive(Debug, Hash, PartialEq, Eq)]
pub struct Developer<'a>(pub Cow<'a, str>);

impl<'a> View for Developer<'a> {
    type V = Seq<char>;

    open spec fn view(&self) -> Seq<char> {
        self.0@
    }
}

impl<'a> Developer<'a> {
    /// The text of the value.
    pub fn as_str(&self) -> (r: &str)
        ensures
            r@ == self@,
    {
        cow_str(&self.0)
    }
}

impl<'a> Clone for Developer<'a> {
    fn clone(&self) -> (r: Self)
        ensures
            r@ == self@,
    {
        Developer(cow_clone(&self.0))
    }
}

impl<'a> Default for Developer<'a> {
    fn default() -> (r: Self)
        ensures
            r@ == Seq::<char>::empty(),
    {
        Developer(empty_cow())
    }
}

impl<'a> From<&'a str> for Developer<'a> {
    fn from(val: &'a str) -> (r: Self) {
        Developer(Cow::Borrowed(val))
    }
}

impl<'a> vstd::std_specs::convert::FromSpecImpl<&'a str> for Developer<'a> {
    open spec fn obeys_from_spec() -> bool {
        true
    }

    open spec fn from_spec(val: &'a str) -> Self {
        Developer(Cow::Borrowed(val))
    }
}

impl<'a> From<String> for Developer<'a> {
    fn from(val: String) -> (r: Self) {
        Developer(Cow::Owned(val))
    }
}

impl<'a> vstd::std_specs::convert::FromSpecImpl<String> for Developer<'a> {
    open spec fn obeys_from_spec() -> bool {
        true
    }

    open spec fn from_spec(val: String) -> Self {
        Developer(Cow::Owned(val))
    }
}

impl<'a> ToOwnedInner for Developer<'a> {
    type Other = Developer<'static>;

    fn to_owned_inner(self) -> (r: Developer<'static>)
        ensures
            r@ == self@,
            r.0 is Owned,
    {
        Developer(owned_cow(self.0))
    }
}

/// The name of a store category, for instance `utilities`.
#[derive(Debug, Hash, PartialEq, Eq)]
pub struct CategoryName<'a>(pub Cow<'a, str>);

impl<'a> View for CategoryName<'a> {
    type V = Seq<char>;

    open spec fn view(&self) -> Seq<char> {
        self.0@
    }
}

impl<'a> CategoryName<'a> {
    /// The text of the value.
    pub fn as_str(&self) -> (r: &str)
        ensures
            r@ == self@,
    {
        cow_str(&self.0)
    }
}

impl<'a> Clone for CategoryName<'a> {
    fn clone(&self) -> (r: Self)
        ensures
            r@ == self@,
    {
        CategoryName(cow_clone(&self.0))
    }
}

impl<'a> Default for CategoryName<'a> {
    fn default() -> (r: Self)
        ensures
            r@ == Seq::<char>::empty(),
    {
        CategoryName(empty_cow())
    }
}

impl<'a> From<&'a str> for CategoryName<'a> {
    fn from(val: &'a str) -> (r: Self) {
        CategoryName(Cow::Borrowed(val))
    }
}

impl<'a> vstd::std_specs::convert::FromSpecImpl<&'a str> for CategoryName<'a> {
    open spec fn obeys_from_spec() -> bool {
        true
    }

    open spec fn from_spec(val: &'a str) -> Self {
        CategoryName(Cow::Borrowed(val))
    }
}

impl<'a> From<String> for CategoryName<'a> {
    fn from(val: String) -> (r: Self) {
        CategoryName(Cow::Owned(val))
    }
}

impl<'a> vstd::std_specs::convert::FromSpecImpl<String> for CategoryName<'a> {
    open spec fn obeys_from_spec() -> bool {
        true
    }

    open spec fn from_spec(val: String) -> Self {
        CategoryName(Cow::Owned(val))
    }
}

impl<'a> ToOwnedInner for CategoryName<'a> {
    type Other = CategoryName<'static>;

    fn to_owned_inner(self) -> (r: CategoryName<'static>)
        ensures
            r@ == self@,
            r.0 is Owned,
    {
        CategoryName(owned_cow(self.0))
    }
}


/// A category of the store that a snap is filed under, and whether the snap is featured there.
#[derive(Debug, Hash, PartialEq, Eq)]
pub struct StoreCategory<'a> {
    pub name: CategoryName<'a>,
    pub featured: bool,
}

impl<'a> View for StoreCategory<'a> {
    type V = (Seq<char>, bool);

    open spec fn view(&self) -> (Seq<char>, bool) {
        (self.name@, self.featured)
    }
}

impl<'a> ToOwnedInner for StoreCategory<'a> {
    type Other = StoreCategory<'static>;

    fn to_owned_inner(self) -> (r: StoreCategory<'static>)
        ensures
            r@ == self@,
    {
        StoreCategory { name: self.name.to_owned_inner(), featured: self.featured }
    }
}

/// What the store says of one snap.
#[derive(Debug, Hash, PartialEq, Eq)]
pub struct SnapInfo<'a> {
    pub id: SnapId<'a>,
    pub title: SnapTitle<'a>,
    pub summary: Summary<'a>,
    pub description: Description<'a>,
    pub name: SnapName<'a>,
    pub developer: Developer<'a>,
    pub categories: Vec<StoreCategory<'a>>,
}

/// What the store says of one snap, as plain values.
pub struct SnapInfoView {
    pub id: Seq<char>,
    pub title: Seq<char>,
    pub summary: Seq<char>,
    pub description: Seq<char>,
    pub name: Seq<char>,
    pub developer: Seq<char>,
    pub categories: Seq<(Seq<char>, bool)>,
}

/// Categories as plain values.
pub open spec fn categories_view<'a>(v: Seq<StoreCategory<'a>>) -> Seq<(Seq<char>, bool)> {
    v.map_values(|c: StoreCategory<'a>| c@)
}

impl<'a> View for SnapInfo<'a> {
    type V = SnapInfoView;

    open spec fn view(&self) -> SnapInfoView {
        SnapInfoView {
            id: self.id@,
            title: self.title@,
            summary: self.summary@,
            description: self.description@,
            name: self.name@,
            developer: self.developer@,
            categories: categories_view(self.categories@),
        }
    }
}

/// The snaps that a lookup found.
#[derive(Debug, Hash, PartialEq, Eq)]
pub struct FindResult<'a> {
    pub info: Vec<SnapInfo<'a>>,
}

/// Found snaps as plain values.
pub open spec fn infos_view<'a>(v: Seq<SnapInfo<'a>>) -> Seq<SnapInfoView> {
    v.map_values(|i: SnapInfo<'a>| i@)
}

impl<'a> View for FindResult<'a> {
    type V = Seq<SnapInfoView>;

    open spec fn view(&self) -> Seq<SnapInfoView> {
        infos_view(self.info@)
    }
}

/// What category object `v` reads as.
pub open spec fn category_decoded(v: JsonValue) -> Option<(Seq<char>, bool)> {
    match (str_field(v, "name"@), field(v, "featured"@)) {
        (Some(n), Some(JsonValue::Bool(b))) => Some((n, b)),
        _ => None,
    }
}

/// What the items of a categories array read as.
pub open spec fn categories_decoded(items: Seq<JsonValue>) -> Option<Seq<(Seq<char>, bool)>>
    decreases items.len(),
{
    if items.len() == 0 {
        Some(Seq::empty())
    } else {
        match (categories_decoded(items.drop_last()), category_decoded(items.last())) {
            (Some(p), Some(c)) => Some(p.push(c)),
            _ => None,
        }
    }
}

/// What snap object `v` reads as.
pub open spec fn snap_info_decoded(v: JsonValue) -> Option<SnapInfoView> {
    match (
        str_field(v, "id"@),
        str_field(v, "title"@),
        str_field(v, "summary"@),
        str_field(v, "description"@),
        str_field(v, "name"@),
        str_field(v, "developer"@),
        field(v, "categories"@),
    ) {
        (
            Some(id),
            Some(title),
            Some(summary),
            Some(description),
            Some(name),
            Some(developer),
            Some(JsonValue::Array(items)),
        ) => match categories_decoded(items@) {
            Some(categories) => Some(
                SnapInfoView { id, title, summary, description, name, developer, categories },
            ),
            None => None,
        },
        _ => None,
    }
}

/// What the items of an array of snap objects read as.
pub open spec fn snap_infos_decoded(items: Seq<JsonValue>) -> Option<Seq<SnapInfoView>>
    decreases items.len(),
{
    if items.len() == 0 {
        Some(Seq::empty())
    } else {
        match (snap_infos_decoded(items.drop_last()), snap_info_decoded(items.last())) {
            (Some(p), Some(c)) => Some(p.push(c)),
            _ => None,
        }
    }
}

/// Where a prefix of `items` does not read as categories, `items` does not either.
pub proof fn lemma_categories_decoded_prefix(items: Seq<JsonValue>, n: int)
    requires
        0 <= n <= items.len(),
        categories_decoded(items.subrange(0, n)).is_none(),
    ensures
        categories_decoded(items).is_none(),
    decreases items.len() - n,
{
    if n < items.len() {
        assert(items.subrange(0, n + 1).drop_last() =~= items.subrange(0, n));
        lemma_categories_decoded_prefix(items, n + 1);
    } else {
        assert(items.subrange(0, n) =~= items);
    }
}

/// Where a prefix of `items` does not read as snaps, `items` does not either.
pub proof fn lemma_snap_infos_decoded_prefix(items: Seq<JsonValue>, n: int)
    requires
        0 <= n <= items.len(),
        snap_infos_decoded(items.subrange(0, n)).is_none(),
    ensures
        snap_infos_decoded(items).is_none(),
    decreases items.len() - n,
{
    if n < items.len() {
        assert(items.subrange(0, n + 1).drop_last() =~= items.subrange(0, n));
        lemma_snap_infos_decoded_prefix(items, n + 1);
    } else {
        assert(items.subrange(0, n) =~= items);
    }
}

/// An owned copy of the text of member `key` of `v`.
fn owned_str_field<'a>(v: &JsonValue, key: &str) -> (r: Option<Cow<'a, str>>)
    ensures
        match r {
            Some(s) => str_field(*v, key@) == Some(s@),
            None => str_field(*v, key@).is_none(),
        },
{
    match v.get_str(key) {
        Some(s) => Some(Cow::Owned(s.clone())),
        None => None,
    }
}

impl<'a> StoreCategory<'a> {
    /// Reads category object `v`.
    pub fn from_json(v: &JsonValue) -> (r: Result<Self, ParseError>)
        ensures
            match category_decoded(*v) {
                Some(m) => r matches Ok(x) && x@ == m,
                None => r == Err::<Self, ParseError>(ParseError::Shape),
            },
    {
        let name = match owned_str_field(v, "name") {
            Some(n) => n,
            None => {
                return Err(ParseError::Shape);
            },
        };
        match v.get("featured") {
            Some(JsonValue::Bool(b)) => Ok(StoreCategory { name: CategoryName(name), featured: *b }),
            _ => Err(ParseError::Shape),
        }
    }
}

/// Reads the items of a categories array.
fn categories_from_json<'a>(items: &Vec<JsonValue>) -> (r: Result<Vec<StoreCategory<'a>>, ParseError>)
    ensures
        match categories_decoded(items@) {
            Some(m) => r matches Ok(x) && categories_view(x@) == m,
            None => r == Err::<Vec<StoreCategory<'a>>, ParseError>(ParseError::Shape),
        },
{
    let mut out: Vec<StoreCategory<'a>> = Vec::new();
    let mut i: usize = 0;
    while i < items.len()
        invariant
            i <= items@.len(),
            categories_decoded(items@.subrange(0, i as int)) == Some(categories_view(out@)),
        decreases items@.len() - i,
    {
        assert(items@.subrange(0, i as int + 1).drop_last() =~= items@.subrange(0, i as int));
        match StoreCategory::from_json(&items[i]) {
            Ok(c) => {
                let ghost before = out@;
                out.push(c);
                assert(categories_view(out@) =~= categories_view(before).push(
                    category_decoded(items@[i as int])->Some_0,
                ));
            },
            Err(e) => {
                proof {
                    lemma_categories_decoded_prefix(items@, i as int + 1);
                }
                return Err(e);
            },
        }
        i = i + 1;
    }
    assert(items@.subrange(0, i as int) =~= items@);
    Ok(out)
}

impl<'a> SnapInfo<'a> {
    /// Reads snap object `v`.
    pub fn from_json(v: &JsonValue) -> (r: Result<Self, ParseError>)
        ensures
            match snap_info_decoded(*v) {
                Some(m) => r matches Ok(x) && x@ == m,
                None => r == Err::<Self, ParseError>(ParseError::Shape),
            },
    {
        let id = match owned_str_field(v, "id") {
            Some(s) => s,
            None => {
                return Err(ParseError::Shape);
            },
        };
        let title = match owned_str_field(v, "title") {
            Some(s) => s,
            None => {
                return Err(ParseError::Shape);
            },
        };
        let summary = match owned_str_field(v, "summary") {
            Some(s) => s,
            None => {
                return Err(ParseError::Shape);
            },
        };
        let description = match owned_str_field(v, "description") {
            Some(s) => s,
            None => {
                return Err(ParseError::Shape);
            },
        };
        let name = match owned_str_field(v, "name") {
            Some(s) => s,
            None => {
                return Err(ParseError::Shape);
            },
        };
        let developer = match owned_str_field(v, "developer") {
            Some(s) => s,
            None => {
                return Err(ParseError::Shape);
            },
        };
        let categories = match v.get("categories") {
            Some(JsonValue::Array(items)) => categories_from_json(items)?,
            _ => {
                return Err(ParseError::Shape);
            },
        };
        Ok(SnapInfo {
            id: SnapId(id),
            title: SnapTitle(title),
            summary: Summary(summary),
            description: Description(description),
            name: SnapName(name),
            developer: Developer(developer),
            categories,
        })
    }
}

impl<'a> FromJson for FindResult<'a> {
    open spec fn decoded(v: JsonValue) -> Option<Self::V> {
        match v {
            JsonValue::Array(items) => snap_infos_decoded(items@),
            _ => None,
        }
    }

    /// Reads the array of found snaps.
    fn from_json(v: &JsonValue) -> (r: Result<Self, ParseError>) {
        let items = match v {
            JsonValue::Array(items) => items,
            _ => {
                return Err(ParseError::Shape);
            },
        };
        let mut out: Vec<SnapInfo<'a>> = Vec::new();
        let mut i: usize = 0;
        while i < items.len()
            invariant
                i <= items@.len(),
                Self::decoded(*v) == snap_infos_decoded(items@),
                snap_infos_decoded(items@.subrange(0, i as int)) == Some(infos_view(out@)),
            decreases items@.len() - i,
        {
            assert(items@.subrange(0, i as int + 1).drop_last() =~= items@.subrange(0, i as int));
            match SnapInfo::from_json(&items[i]) {
                Ok(info) => {
                    let ghost before = out@;
                    out.push(info);
                    assert(infos_view(out@) =~= infos_view(before).push(
                        snap_info_decoded(items@[i as int])->Some_0,
                    ));
                },
                Err(e) => {
                    proof {
                        lemma_snap_infos_decoded_prefix(items@, i as int + 1);
                    }
                    return Err(e);
                },
            }
            i = i + 1;
        }
        assert(items@.subrange(0, i as int) =~= items@);
        Ok(FindResult { info: out })
    }
}

impl<'a> FindResult<'a> {
    /// The categories of the snap that the lookup found: the last one listed, since a lookup
    /// by name or by id finds at most one. A lookup that found nothing is an error.
    pub fn into_categories(self) -> (r: Result<Vec<StoreCategory<'a>>, FindError>)
        ensures
            self@.len() == 0 ==> r == Err::<Vec<StoreCategory<'a>>, FindError>(
                FindError::NoSnapsFound,
            ),
            self@.len() > 0 ==> (r matches Ok(c) && categories_view(c@) == self@.last().categories),
    {
        let mut info = self.info;
        match info.pop() {
            Some(last) => Ok(last.categories),
            None => Err(FindError::NoSnapsFound),
        }
    }
}

} // verus!
