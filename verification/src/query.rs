//! Queries sent by POST to the web API: the JSON body members, the URL
//! parameters and the endpoint path of each.
use vstd::prelude::*;

pub mod continuations;
pub mod podcasts;

verus! {

/// `serde_json::Value`: a JSON value.
#[verifier::external_type_specification]
#[verifier::external_body]
pub struct ExJsonValue(serde_json::Value);

/// `serde_json::Map`: the members of a JSON object.
#[verifier::external_type_specification]
#[verifier::external_body]
#[verifier::reject_recursive_types(K)]
#[verifier::reject_recursive_types(V)]
pub struct ExJsonMap<K, V>(serde_json::Map<K, V>);

/// The JSON string whose text is `s`: `Value::String` of that text. The
/// variant cannot be written here, since `Value` holds itself through
/// `Map`, whose declaration takes no recursive type, so the value is named.
pub uninterp spec fn json_string(s: Seq<char>) -> serde_json::Value;

/// The members of a JSON object, by name.
pub uninterp spec fn json_object_members(m: serde_json::Map<String, serde_json::Value>) -> Map<
    Seq<char>,
    serde_json::Value,
>;

/// The members named by the pairs of `s`, later pairs inserted after
/// earlier ones.
pub open spec fn members_of(s: Seq<(String, serde_json::Value)>) -> Map<Seq<char>, serde_json::Value>
    decreases s.len(),
{
    if s.len() == 0 {
        Map::empty()
    } else {
        members_of(s.drop_last()).insert(s.last().0@, s.last().1)
    }
}

/// The JSON string of `s`: `serde_json::Value::from(&str)`, which is
/// `Value::String` of a copy of `s`.
#[verifier::external_body]
fn json_string_value(s: &str) -> (v: serde_json::Value)
    ensures
        v == json_string(s@),
{
    serde_json::Value::from(s)
}

/// The JSON object with the members `members`: `serde_json::Map::from_iter`,
/// which inserts each pair. Where two pairs share a name the documentation
/// does not say which value stays, so the names must be distinct.
#[verifier::external_body]
fn json_object(members: Vec<(String, serde_json::Value)>) -> (m: serde_json::Map<
    String,
    serde_json::Value,
>)
    requires
        forall|i: int, j: int|
            0 <= i < j < members@.len() ==> members@[i].0@ != members@[j].0@,
    ensures
        json_object_members(m) == members_of(members@),
{
    serde_json::Map::from_iter(members)
}

/// The body of a query that names a page to browse: one member
/// `browseId` with the text `id`.
pub open spec fn browse_members(id: Seq<char>) -> Map<Seq<char>, serde_json::Value> {
    map!["browseId"@ => json_string(id)]
}

/// The body `{"browseId": id}`.
fn browse_body(id: &str) -> (m: serde_json::Map<String, serde_json::Value>)
    ensures
        json_object_members(m) == browse_members(id@),
{
    let mut members: Vec<(String, serde_json::Value)> = Vec::new();
    members.push((String::from_str("browseId"), json_string_value(id)));
    proof {
        assert(members@.drop_last().len() == 0);
        assert(members_of(members@.drop_last()) =~= Map::<Seq<char>, serde_json::Value>::empty());
        assert(members_of(members@) =~= browse_members(id@));
    }
    json_object(members)
}

/// The text of URL parameters, name and value.
pub open spec fn params_text(p: Seq<(&str, String)>) -> Seq<(Seq<char>, Seq<char>)> {
    p.map_values(|x: (&str, String)| (x.0@, x.1@))
}

/// A query sent by POST. `body_members`, `params_view` and `path_view` say
/// what `header`, `params` and `path` return.
pub trait PostQuery {
    spec fn body_members(&self) -> Map<Seq<char>, serde_json::Value>;

    spec fn params_view(&self) -> Seq<(Seq<char>, Seq<char>)>;

    spec fn path_view(&self) -> Seq<char>;

    /// The members of the JSON body.
    fn header(&self) -> (h: serde_json::Map<String, serde_json::Value>)
        ensures
            json_object_members(h) == self.body_members(),
    ;

    /// The URL parameters, name and value.
    fn params(&self) -> (p: Vec<(&str, String)>)
        ensures
            params_text(p@) == self.params_view(),
    ;

    /// The endpoint path.
    fn path(&self) -> (p: &str)
        ensures
            p@ == self.path_view(),
    ;
}

} // verus!
