use vstd::prelude::*;

use crate::error::RpcError;
use crate::json::{
    array, items_view, json_view, members_view, object, push_member, JsonSpec, JsonValue,
};

verus! {

/// The account that the chat client reports after a handshake.
#[derive(Debug, Clone, Default, PartialEq, Eq)]
pub struct User {
    pub id: String,
    pub username: String,
    pub discriminator: String,
    pub avatar: String,
    pub flags: u16,
}

/// A presence status shown to other users. Every field is optional and is
/// left out of the message when absent or empty.
#[derive(Debug, Clone, Default, PartialEq, Eq)]
pub struct Activity {
    pub state: Option<String>,
    pub details: Option<String>,
    pub timestamps: Option<ActivityTimestamps>,
    pub assets: Option<ActivityAssets>,
    pub party: Option<ActivityParty>,
    /// At most two buttons; an activity with more is refused, not cut short.
    pub buttons: Option<Vec<ActivityButton>>,
}

/// Start and end of an activity, in milliseconds since the Unix epoch.
#[derive(Debug, Clone, Copy, Default, PartialEq, Eq)]
pub struct ActivityTimestamps {
    pub start: Option<u128>,
    pub end: Option<u128>,
}

/// Images and their hover texts.
#[derive(Debug, Clone, Default, PartialEq, Eq)]
pub struct ActivityAssets {
    pub large_image: Option<String>,
    pub large_text: Option<String>,
    pub small_image: Option<String>,
    pub small_text: Option<String>,
}

/// The group that the user plays in: an id, and current and largest size.
#[derive(Debug, Clone, Default, PartialEq, Eq)]
pub struct ActivityParty {
    pub id: Option<String>,
    pub size: Option<(Option<u32>, Option<u32>)>,
}

/// A link button shown under the activity.
#[derive(Debug, Clone, Default, PartialEq, Eq)]
pub struct ActivityButton {
    pub label: String,
    pub url: String,
}

/// The most buttons an activity may carry.
pub const MAX_BUTTONS: usize = 2;

/// Whether an optional text is present and not empty.
pub open spec fn text_present(t: Option<String>) -> bool {
    t is Some && t->Some_0@.len() > 0
}

/// The member `key` for an optional text: none when absent or empty.
pub open spec fn text_entry(key: Seq<char>, t: Option<String>) -> Seq<(Seq<char>, JsonSpec)> {
    if text_present(t) {
        seq![(key, JsonSpec::Text(t->Some_0@))]
    } else {
        seq![]
    }
}

/// The member `key` for an optional number: none when absent.
pub open spec fn number_entry(key: Seq<char>, n: Option<u128>) -> Seq<(Seq<char>, JsonSpec)> {
    if n is Some {
        seq![(key, JsonSpec::Number(n->Some_0 as u64))]
    } else {
        seq![]
    }
}

/// The member `key` for a nested record: none when the record has no members.
pub open spec fn object_entry(key: Seq<char>, members: Seq<(Seq<char>, JsonSpec)>) -> Seq<
    (Seq<char>, JsonSpec),
> {
    if members.len() > 0 {
        seq![(key, JsonSpec::Object(members))]
    } else {
        seq![]
    }
}

/// Whether an optional timestamp can be written as a JSON number.
pub open spec fn fits_u64(n: Option<u128>) -> bool {
    n matches Some(x) ==> x <= u64::MAX
}

/// An optional count as a JSON value: `null` when absent.
pub open spec fn count_spec(n: Option<u32>) -> JsonSpec {
    match n {
        Some(x) => JsonSpec::Number(x as u64),
        None => JsonSpec::Null,
    }
}

impl ActivityTimestamps {
    pub open spec fn encodable(self) -> bool {
        fits_u64(self.start) && fits_u64(self.end)
    }

    pub open spec fn members_spec(self) -> Seq<(Seq<char>, JsonSpec)> {
        number_entry("start"@, self.start) + number_entry("end"@, self.end)
    }
}

impl ActivityAssets {
    pub open spec fn members_spec(self) -> Seq<(Seq<char>, JsonSpec)> {
        text_entry("large_image"@, self.large_image) + text_entry("large_text"@, self.large_text)
            + text_entry("small_image"@, self.small_image) + text_entry(
            "small_text"@,
            self.small_text,
        )
    }
}

impl ActivityParty {
    pub open spec fn members_spec(self) -> Seq<(Seq<char>, JsonSpec)> {
        text_entry("id"@, self.id) + match self.size {
            Some((current, max)) => seq![
                ("size"@, JsonSpec::Array(seq![count_spec(current), count_spec(max)])),
            ],
            None => seq![],
        }
    }
}

impl ActivityButton {
    pub open spec fn json_spec(self) -> JsonSpec {
        JsonSpec::Object(seq![("label"@, JsonSpec::Text(self.label@)), ("url"@, JsonSpec::Text(self.url@))])
    }
}

/// The member for a list of buttons: none when absent or empty.
pub open spec fn buttons_entry(buttons: Option<Vec<ActivityButton>>) -> Seq<(Seq<char>, JsonSpec)> {
    match buttons {
        Some(bs) => if bs@.len() > 0 {
            seq![
                ("buttons"@, JsonSpec::Array(
                    Seq::new(bs@.len(), |i: int| bs@[i].json_spec()),
                )),
            ]
        } else {
            seq![]
        },
        None => seq![],
    }
}

impl Activity {
    /// Whether the activity can be sent: its timestamps fit a JSON number and
    /// it has at most two buttons.
    pub open spec fn encodable(self) -> bool {
        &&& self.timestamps matches Some(t) ==> t.encodable()
        &&& self.buttons matches Some(bs) ==> bs@.len() <= MAX_BUTTONS
    }

    /// The members of the activity's JSON object, absent and empty fields left out.
    pub open spec fn members_spec(self) -> Seq<(Seq<char>, JsonSpec)> {
        text_entry("state"@, self.state) + text_entry("details"@, self.details) + match self.timestamps {
            Some(t) => object_entry("timestamps"@, t.members_spec()),
            None => seq![],
        } + match self.assets {
            Some(a) => object_entry("assets"@, a.members_spec()),
            None => seq![],
        } + match self.party {
            Some(p) => object_entry("party"@, p.members_spec()),
            None => seq![],
        } + buttons_entry(self.buttons)
    }

    /// The activity as a JSON object.
    pub open spec fn json_spec(self) -> JsonSpec {
        JsonSpec::Object(self.members_spec())
    }
}

fn push_text(members: &mut Vec<(String, JsonValue)>, key: &str, value: &Option<String>)
    ensures
        members_view(final(members)@) == members_view(old(members)@) + text_entry(key@, *value),
{
    match value {
        Some(s) => {
            if !s.as_str().is_empty() {
                push_member(members, key, JsonValue::Text(s.clone()));
                return ;
            }
        },
        None => {},
    }
    assert(members_view(final(members)@) =~= members_view(old(members)@) + text_entry(key@, *value));
}

fn push_number(members: &mut Vec<(String, JsonValue)>, key: &str, value: Option<u128>) -> (r: Result<(), RpcError>)
    ensures
        fits_u64(value) ==> r is Ok && members_view(final(members)@) == members_view(old(members)@) + number_entry(key@, value),
        !fits_u64(value) ==> r == Err::<(), RpcError>(RpcError::Encoding),
{
    match value {
        Some(n) => {
            if n > 0xffff_ffff_ffff_ffffu128 {
                return Err(RpcError::Encoding);
            }
            push_member(members, key, JsonValue::Number(n as u64));
        },
        None => {},
    }
    assert(members_view(final(members)@) =~= members_view(old(members)@) + number_entry(key@, value));
    Ok(())
}

fn push_object(members: &mut Vec<(String, JsonValue)>, key: &str, inner: Vec<(String, JsonValue)>)
    ensures
        members_view(final(members)@) == members_view(old(members)@) + object_entry(key@, members_view(inner@)),
{
    if inner.len() > 0 {
        push_member(members, key, object(inner));
    }
    assert(members_view(final(members)@) =~= members_view(old(members)@) + object_entry(key@, members_view(inner@)));
}

fn count_json(n: Option<u32>) -> (r: JsonValue)
    ensures
        json_view(r) == count_spec(n),
{
    match n {
        Some(x) => JsonValue::Number(x as u64),
        None => JsonValue::Null,
    }
}

impl ActivityTimestamps {
    pub fn to_members(&self) -> (r: Result<Vec<(String, JsonValue)>, RpcError>)
        ensures
            self.encodable() ==> r is Ok && members_view(r->Ok_0@) == self.members_spec(),
            !self.encodable() ==> r == Err::<Vec<(String, JsonValue)>, RpcError>(RpcError::Encoding),
    {
        let mut members: Vec<(String, JsonValue)> = Vec::new();
        assert(members_view(members@) =~= Seq::empty());
        push_number(&mut members, "start", self.start)?;
        push_number(&mut members, "end", self.end)?;
        Ok(members)
    }
}

impl ActivityAssets {
    pub fn to_members(&self) -> (r: Vec<(String, JsonValue)>)
        ensures
            members_view(r@) == self.members_spec(),
    {
        let mut members: Vec<(String, JsonValue)> = Vec::new();
        assert(members_view(members@) =~= Seq::empty());
        push_text(&mut members, "large_image", &self.large_image);
        push_text(&mut members, "large_text", &self.large_text);
        push_text(&mut members, "small_image", &self.small_image);
        push_text(&mut members, "small_text", &self.small_text);
        members
    }
}

impl ActivityParty {
    pub fn to_members(&self) -> (r: Vec<(String, JsonValue)>)
        ensures
            members_view(r@) == self.members_spec(),
    {
        let mut members: Vec<(String, JsonValue)> = Vec::new();
        assert(members_view(members@) =~= Seq::empty());
        push_text(&mut members, "id", &self.id);
        match self.size {
            Some((current, max)) => {
                let mut counts: Vec<JsonValue> = Vec::new();
                counts.push(count_json(current));
                counts.push(count_json(max));
                assert(items_view(counts@) =~= seq![count_spec(current), count_spec(max)]);
                push_member(&mut members, "size", array(counts));
            },
            None => {},
        }
        assert(members_view(members@) =~= self.members_spec());
        members
    }
}

impl ActivityButton {
    pub fn to_json(&self) -> (r: JsonValue)
        ensures
            json_view(r) == self.json_spec(),
    {
        let mut members: Vec<(String, JsonValue)> = Vec::new();
        assert(members_view(members@) =~= Seq::empty());
        push_member(&mut members, "label", JsonValue::Text(self.label.clone()));
        push_member(&mut members, "url", JsonValue::Text(self.url.clone()));
        assert(members_view(members@) =~= seq![("label"@, JsonSpec::Text(self.label@)), ("url"@, JsonSpec::Text(self.url@))]);
        object(members)
    }
}

fn push_buttons(members: &mut Vec<(String, JsonValue)>, buttons: &Option<Vec<ActivityButton>>) -> (r: Result<(), RpcError>)
    ensures
        (buttons matches Some(bs) ==> bs@.len() <= MAX_BUTTONS) ==> r is Ok && members_view(final(members)@) == members_view(old(members)@) + buttons_entry(*buttons),
        !(buttons matches Some(bs) ==> bs@.len() <= MAX_BUTTONS) ==> r == Err::<(), RpcError>(RpcError::Encoding),
{
    match buttons {
        Some(bs) => {
            if bs.len() > MAX_BUTTONS {
                return Err(RpcError::Encoding);
            }
            if bs.len() > 0 {
                let mut items: Vec<JsonValue> = Vec::new();
                let mut i: usize = 0;
                while i < bs.len()
                    invariant
                        i <= bs@.len(),
                        items_view(items@) =~= Seq::new(i as nat, |j: int| bs@[j].json_spec()),
                    decreases bs@.len() - i,
                {
                    let b = bs[i].to_json();
                    let ghost prev = items@;
                    items.push(b);
                    assert(items_view(items@) =~= items_view(prev).push(json_view(b)));
                    i += 1;
                    assert(items_view(items@) =~= Seq::new(i as nat, |j: int| bs@[j].json_spec()));
                }
                push_member(members, "buttons", array(items));
                return Ok(());
            }
        },
        None => {},
    }
    assert(members_view(final(members)@) =~= members_view(old(members)@) + buttons_entry(*buttons));
    Ok(())
}

impl Activity {
    /// The activity as a JSON object, absent and empty fields left out.
    pub fn to_json(&self) -> (r: Result<JsonValue, RpcError>)
        ensures
            self.encodable() ==> r is Ok && json_view(r->Ok_0) == self.json_spec(),
            !self.encodable() ==> r == Err::<JsonValue, RpcError>(RpcError::Encoding),
    {
        let mut members: Vec<(String, JsonValue)> = Vec::new();
        assert(members_view(members@) =~= Seq::empty());
        push_text(&mut members, "state", &self.state);
        push_text(&mut members, "details", &self.details);
        match &self.timestamps {
            Some(t) => {
                let inner = t.to_members()?;
                push_object(&mut members, "timestamps", inner);
            },
            None => {},
        }
        match &self.assets {
            Some(a) => push_object(&mut members, "assets", a.to_members()),
            None => {},
        }
        match &self.party {
            Some(p) => push_object(&mut members, "party", p.to_members()),
            None => {},
        }
        push_buttons(&mut members, &self.buttons)?;
        assert(members_view(members@) =~= self.members_spec());
        Ok(object(members))
    }
}

/// Whether every field of the activity, nested records included, is absent
/// or empty.
pub open spec fn activity_blank(a: Activity) -> bool {
    &&& !text_present(a.state)
    &&& !text_present(a.details)
    &&& a.timestamps matches Some(t) ==> t.start is None && t.end is None
    &&& a.assets matches Some(s) ==> !text_present(s.large_image) && !text_present(s.large_text)
        && !text_present(s.small_image) && !text_present(s.small_text)
    &&& a.party matches Some(p) ==> !text_present(p.id) && p.size is None
    &&& a.buttons matches Some(bs) ==> bs@.len() == 0
}

/// An activity whose fields are all absent or empty is an object without
/// members: none of `state`, `details`, `timestamps`, `assets` appears.
pub proof fn lemma_blank_activity_omits_all(a: Activity)
    requires
        activity_blank(a),
    ensures
        a.json_spec() == JsonSpec::Object(Seq::<(Seq<char>, JsonSpec)>::empty()),
        a.json_spec().keys().len() == 0,
{
    assert(a.members_spec() =~= Seq::<(Seq<char>, JsonSpec)>::empty());
}

/// An activity with only a non-empty `state` is exactly `{"state": <state>}`.
pub proof fn lemma_state_only_activity(a: Activity)
    requires
        text_present(a.state),
        !text_present(a.details),
        a.timestamps is None,
        a.assets is None,
        a.party is None,
        a.buttons is None,
    ensures
        a.json_spec() == JsonSpec::Object(seq![("state"@, JsonSpec::Text(a.state->Some_0@))]),
{
    assert(a.members_spec() =~= seq![("state"@, JsonSpec::Text(a.state->Some_0@))]);
}

} // verus!
