//! What the tool tells about environments when asked, as text or as JSON.

use crate::notice;
use crate::storage;
use crate::storage::Storage;
use crate::text;
use vstd::prelude::*;
use vstd::string::*;

verus! {

/// A value in a JSON object.
pub enum JsonValue<T, L> {
    Text(T),
    List(L),
}

/// A key of a JSON object with its value.
pub struct JsonMember {
    pub key: String,
    pub value: JsonValue<String, Vec<String>>,
}

/// What a key of a JSON object says.
pub struct JsonMemberView {
    pub key: Seq<char>,
    pub value: JsonValue<Seq<char>, Seq<Seq<char>>>,
}

/// A JSON document: an object, or an array of objects.
pub enum Json<O, A> {
    Object(O),
    Array(A),
}

/// A JSON document, in running code.
pub type JsonDoc = Json<Vec<JsonMember>, Vec<Vec<JsonMember>>>;

/// A JSON document, in specifications.
pub type JsonDocView = Json<Seq<JsonMemberView>, Seq<Seq<JsonMemberView>>>;

impl View for JsonMember {
    type V = JsonMemberView;

    open spec fn view(&self) -> JsonMemberView {
        JsonMemberView {
            key: self.key@,
            value: match self.value {
                JsonValue::Text(s) => JsonValue::Text(s@),
                JsonValue::List(items) => JsonValue::List(text::texts(items@)),
            },
        }
    }
}

/// What the members of a JSON object say.
pub open spec fn members_view(members: Seq<JsonMember>) -> Seq<JsonMemberView> {
    Seq::new(members.len(), |i: int| members[i]@)
}

impl View for Json<Vec<JsonMember>, Vec<Vec<JsonMember>>> {
    type V = JsonDocView;

    open spec fn view(&self) -> JsonDocView {
        match self {
            Json::Object(members) => Json::Object(members_view(members@)),
            Json::Array(objects) => Json::Array(
                Seq::new(objects@.len(), |i: int| members_view(objects@[i]@)),
            ),
        }
    }
}

/// What `serde_json` reports where it cannot write a document.
#[verifier::external_type_specification]
#[verifier::external_body]
pub struct ExJsonError(serde_json::Error);

/// The text that `serde_json::to_string_pretty` makes of a document.
pub uninterp spec fn pretty_json(doc: JsonDocView) -> Seq<char>;

/// Calls `serde_json::to_string_pretty` on the document as a `serde_json::Value`.
/// It fails only where a `Serialize` impl does or where a key is no string; a
/// `Value` gives neither, so it succeeds. Its result depends on the document alone;
/// how the text is laid out is left unsaid.
#[verifier::external_body]
fn to_string_pretty(doc: &JsonDoc) -> (r: Result<String, serde_json::Error>)
    ensures
        r is Ok,
        r matches Ok(s) ==> s@ == pretty_json(doc@),
{
    let object = |members: &Vec<JsonMember>| -> serde_json::Value {
        members.iter().map(|m| (m.key.clone(), match &m.value {
            JsonValue::Text(s) => serde_json::Value::from(s.clone()),
            JsonValue::List(items) => serde_json::Value::from(items.clone()),
        })).collect()
    };
    let value = match doc {
        Json::Object(members) => object(members),
        Json::Array(objects) => serde_json::Value::Array(objects.iter().map(object).collect()),
    };
    serde_json::to_string_pretty(&value)
}

/// Writes a JSON document.
pub fn write_json(doc: &JsonDoc) -> (r: String)
    ensures
        r@ == pretty_json(doc@),
{
    to_string_pretty(doc).unwrap()
}

/// A member whose value is a list.
pub open spec fn list_member(key: Seq<char>, items: Seq<Seq<char>>) -> JsonMemberView {
    JsonMemberView { key, value: JsonValue::List(items) }
}

/// A member whose value is a text.
pub open spec fn text_member(key: Seq<char>, value: Seq<char>) -> JsonMemberView {
    JsonMemberView { key, value: JsonValue::Text(value) }
}

/// The document that tells of one environment.
pub open spec fn info_doc(packages: Seq<Seq<char>>) -> JsonDocView {
    Json::Object(
        seq![
            list_member("channels"@, storage::channels_of(packages)),
            list_member("flakes"@, storage::flakes_of(packages)),
            list_member("packages"@, packages),
        ],
    )
}

/// The document that tells of one environment.
pub fn info_document(storage: &Storage) -> (r: JsonDoc)
    ensures
        r@ == info_doc(storage@.packages),
{
    let mut members: Vec<JsonMember> = Vec::new();
    members.push(
        JsonMember {
            key: "channels".to_owned(),
            value: JsonValue::List(storage.list_channels()),
        },
    );
    members.push(
        JsonMember { key: "flakes".to_owned(), value: JsonValue::List(storage.list_flakes()) },
    );
    members.push(
        JsonMember {
            key: "packages".to_owned(),
            value: JsonValue::List(text::copy_texts(&storage.packages)),
        },
    );
    assert(members_view(members@) =~= info_doc(storage@.packages)->Object_0);
    Json::Object(members)
}

/// An environment with its packages.
pub struct Listing {
    pub name: String,
    pub packages: Vec<String>,
}

/// What is known of an environment with its packages.
pub struct ListingView {
    pub name: Seq<char>,
    pub packages: Seq<Seq<char>>,
}

impl View for Listing {
    type V = ListingView;

    open spec fn view(&self) -> ListingView {
        ListingView { name: self.name@, packages: text::texts(self.packages@) }
    }
}

/// What a list of environments says.
pub open spec fn listings_view(list: Seq<Listing>) -> Seq<ListingView> {
    Seq::new(list.len(), |i: int| list[i]@)
}

/// The object that tells of an environment among others.
pub open spec fn listing_object(listing: ListingView) -> Seq<JsonMemberView> {
    seq![text_member("name"@, listing.name), list_member("packages"@, listing.packages)]
}

/// The document that tells of all environments.
pub open spec fn list_doc(list: Seq<ListingView>) -> JsonDocView {
    Json::Array(list.map_values(|listing: ListingView| listing_object(listing)))
}

/// The document that tells of all environments.
pub fn list_document(list: &Vec<Listing>) -> (r: JsonDoc)
    ensures
        r@ == list_doc(listings_view(list@)),
{
    let mut objects: Vec<Vec<JsonMember>> = Vec::new();
    let mut i: usize = 0;
    while i < list.len()
        invariant
            i <= list@.len(),
            objects@.len() == i,
            forall|j: int|
                0 <= j < i ==> members_view((#[trigger] objects@[j])@) == listing_object(
                    list@[j]@,
                ),
        decreases list@.len() - i,
    {
        let mut members: Vec<JsonMember> = Vec::new();
        members.push(
            JsonMember { key: "name".to_owned(), value: JsonValue::Text(list[i].name.clone()) },
        );
        members.push(
            JsonMember {
                key: "packages".to_owned(),
                value: JsonValue::List(text::copy_texts(&list[i].packages)),
            },
        );
        assert(members_view(members@) =~= listing_object(list@[i as int]@));
        objects.push(members);
        i = i + 1;
    }
    assert(Seq::new(objects@.len(), |i: int| members_view(objects@[i]@)) =~= list_doc(
        listings_view(list@),
    )->Array_0);
    Json::Array(objects)
}

/// Lines with one item each, behind a bullet.
pub open spec fn bullets(bullet: Seq<char>, items: Seq<Seq<char>>) -> Seq<char>
    decreases items.len(),
{
    if items.len() == 0 {
        Seq::empty()
    } else {
        bullets(bullet, items.drop_last()) + bullet + items.last() + "\n"@
    }
}

/// Lines with one item each, or one line that says that there is none.
pub open spec fn bullets_or(bullet: Seq<char>, items: Seq<Seq<char>>, none: Seq<char>) -> Seq<
    char,
> {
    if items.len() == 0 {
        none
    } else {
        bullets(bullet, items)
    }
}

fn bullet_lines(bullet: &str, items: &Vec<String>, none: &str) -> (r: String)
    ensures
        r@ == bullets_or(bullet@, text::texts(items@), none@),
{
    if items.len() == 0 {
        return none.to_owned();
    }
    let mut out = String::new();
    let mut i: usize = 0;
    let ghost all = text::texts(items@);
    while i < items.len()
        invariant
            i <= items@.len(),
            all == text::texts(items@),
            out@ == bullets(bullet@, all.take(i as int)),
        decreases items@.len() - i,
    {
        assert(all.take(i + 1).drop_last() =~= all.take(i as int));
        out.append(bullet);
        out.append(items[i].as_str());
        out.append("\n");
        i = i + 1;
    }
    assert(all.take(i as int) =~= all);
    out
}

/// What is told of one environment; `shown` is how its name is shown.
pub open spec fn info_text(shown: Seq<char>, packages: Seq<Seq<char>>) -> Seq<char> {
    "Environment "@ + shown + "\n\nChannels:\n"@ + bullets_or(
        " - "@,
        storage::channels_of(packages),
        " - <empty>\n"@,
    ) + "\nFlakes:\n"@ + bullets_or(" - "@, storage::flakes_of(packages), " - <empty>\n"@)
        + "\nPackages:\n"@ + bullets_or(" - "@, packages, " - <empty>\n"@)
}

/// Tells of one environment whose name is shown as `shown`.
pub fn info_as(shown: &str, storage: &Storage) -> (r: String)
    ensures
        r@ == info_text(shown@, storage@.packages),
{
    let channels = bullet_lines(" - ", &storage.list_channels(), " - <empty>\n");
    let flakes = bullet_lines(" - ", &storage.list_flakes(), " - <empty>\n");
    let packages = bullet_lines(" - ", &storage.packages, " - <empty>\n");
    "Environment ".to_owned().concat(shown).concat("\n\nChannels:\n").concat(
        channels.as_str(),
    ).concat("\nFlakes:\n").concat(flakes.as_str()).concat("\nPackages:\n").concat(
        packages.as_str(),
    )
}

/// Tells of one environment.
pub fn info_plain(env: &str, storage: &Storage) -> (r: String)
    ensures
        r@ == info_text(notice::debug_text(env@), storage@.packages),
{
    let shown = notice::debug_format(env);
    info_as(shown.as_str(), storage)
}

/// Tells of one environment in JSON.
pub fn info_json(storage: &Storage) -> (r: String)
    ensures
        r@ == pretty_json(info_doc(storage@.packages)),
{
    write_json(&info_document(storage))
}

/// What is told of an environment among others.
pub open spec fn listing_text(listing: ListingView) -> Seq<char> {
    listing.name + ":\n"@ + bullets_or("  - "@, listing.packages, "  <empty>\n"@) + "\n"@
}

/// What is told of environments, one behind the other.
pub open spec fn listings_text(list: Seq<ListingView>) -> Seq<char>
    decreases list.len(),
{
    if list.len() == 0 {
        Seq::empty()
    } else {
        listings_text(list.drop_last()) + listing_text(list.last())
    }
}

/// What is told of all environments.
pub open spec fn list_text(list: Seq<ListingView>) -> Seq<char> {
    if list.len() == 0 {
        "No environments found.\n\nCreate one with:\n  $ fhs add <package>\n"@
    } else {
        listings_text(list)
    }
}

/// Tells of all environments.
pub fn list_plain(list: &Vec<Listing>) -> (r: String)
    ensures
        r@ == list_text(listings_view(list@)),
{
    if list.len() == 0 {
        return "No environments found.\n\nCreate one with:\n  $ fhs add <package>\n".to_owned();
    }
    let mut out = String::new();
    let mut i: usize = 0;
    let ghost all = listings_view(list@);
    while i < list.len()
        invariant
            i <= list@.len(),
            all == listings_view(list@),
            out@ == listings_text(all.take(i as int)),
        decreases list@.len() - i,
    {
        assert(all.take(i + 1).drop_last() =~= all.take(i as int));
        let lines = bullet_lines("  - ", &list[i].packages, "  <empty>\n");
        let entry = list[i].name.clone().concat(":\n").concat(lines.as_str()).concat("\n");
        out.append(entry.as_str());
        i = i + 1;
    }
    assert(all.take(i as int) =~= all);
    out
}

/// Tells of all environments in JSON.
pub fn list_json(list: &Vec<Listing>) -> (r: String)
    ensures
        r@ == pretty_json(list_doc(listings_view(list@))),
{
    write_json(&list_document(list))
}

/// A report as it is put out: a JSON document and its line break, or text.
pub open spec fn put_out(written: Seq<char>, plain: Seq<char>, json: bool) -> Seq<char> {
    if json {
        written + "\n"@
    } else {
        plain
    }
}

/// What is put out of one environment.
pub open spec fn info_output(env: Seq<char>, packages: Seq<Seq<char>>, json: bool) -> Seq<char> {
    put_out(
        pretty_json(info_doc(packages)),
        info_text(notice::debug_text(env), packages),
        json,
    )
}

/// What is put out of all environments.
pub open spec fn list_output(list: Seq<ListingView>, json: bool) -> Seq<char> {
    put_out(pretty_json(list_doc(list)), list_text(list), json)
}

/// What to put out of one environment.
pub fn write_info(env: &str, storage: &Storage, json: bool) -> (r: String)
    ensures
        r@ == info_output(env@, storage@.packages, json),
{
    if json {
        info_json(storage).concat("\n")
    } else {
        info_plain(env, storage)
    }
}

/// What to put out of all environments.
pub fn write_list(list: &Vec<Listing>, json: bool) -> (r: String)
    ensures
        r@ == list_output(listings_view(list@), json),
{
    if json {
        list_json(list).concat("\n")
    } else {
        list_plain(list)
    }
}

/// A report in text tells every package of an environment, each on its line, and
/// says so where there is none.
pub proof fn law_bullets_tell_every_item(
    bullet: Seq<char>,
    items: Seq<Seq<char>>,
    none: Seq<char>,
    i: int,
)
    ensures
        items.len() == 0 ==> bullets_or(bullet, items, none) == none,
        0 <= i < items.len() ==> crate::nix::occurs(
            bullet + items[i] + "\n"@,
            bullets_or(bullet, items, none),
        ),
    decreases items.len(),
{
    if 0 <= i < items.len() {
        let line = bullet + items[i] + "\n"@;
        let front = items.drop_last();
        if i == items.len() - 1 {
            assert(bullets(bullet, items) =~= bullets(bullet, front) + line + Seq::empty());
        } else {
            law_bullets_tell_every_item(bullet, front, none, i);
            let (a, b) = choose|a: Seq<char>, b: Seq<char>|
                bullets(bullet, front) == #[trigger] (a + line + b);
            assert(bullets(bullet, items) =~= a + line + (b + (bullet + items.last() + "\n"@)));
        }
    }
}

} // verus!
