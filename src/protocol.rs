use vstd::prelude::*;

use crate::error::RpcError;
use crate::json::{json_view, members_view, object, push_member, JsonSpec, JsonValue};
use crate::presence::{Activity, User};

verus! {

/// The protocol version that a handshake announces.
pub const PROTOCOL_VERSION: u64 = 1;

/// The handshake request: `{"client_id": .., "v": 1, "nonce": ..}`.
pub open spec fn handshake_spec(client_id: Seq<char>, nonce: Seq<char>) -> JsonSpec {
    JsonSpec::Object(
        seq![
            ("client_id"@, JsonSpec::Text(client_id)),
            ("v"@, JsonSpec::Number(PROTOCOL_VERSION)),
            ("nonce"@, JsonSpec::Text(nonce)),
        ],
    )
}

/// The activity update request:
/// `{"cmd": "SET_ACTIVITY", "args": {"pid": .., "activity": ..}, "nonce": ..}`,
/// with `null` for an absent activity.
pub open spec fn activity_update_spec(pid: u32, activity: Option<Activity>, nonce: Seq<char>) -> JsonSpec {
    JsonSpec::Object(
        seq![
            ("cmd"@, JsonSpec::Text("SET_ACTIVITY"@)),
            ("args"@, JsonSpec::Object(
                seq![
                    ("pid"@, JsonSpec::Number(pid as u64)),
                    ("activity"@, match activity {
                        Some(a) => a.json_spec(),
                        None => JsonSpec::Null,
                    }),
                ],
            )),
            ("nonce"@, JsonSpec::Text(nonce)),
        ],
    )
}

/// Whether an activity update can be sent.
pub open spec fn activity_update_encodable(activity: Option<Activity>) -> bool {
    activity matches Some(a) ==> a.encodable()
}

/// Builds the handshake request.
pub fn handshake_payload(client_id: &str, nonce: &str) -> (r: JsonValue)
    ensures
        json_view(r) == handshake_spec(client_id@, nonce@),
{
    let mut members: Vec<(String, JsonValue)> = Vec::new();
    assert(members_view(members@) =~= Seq::empty());
    push_member(&mut members, "client_id", JsonValue::Text(client_id.to_owned()));
    push_member(&mut members, "v", JsonValue::Number(PROTOCOL_VERSION));
    push_member(&mut members, "nonce", JsonValue::Text(nonce.to_owned()));
    let r = object(members);
    assert(json_view(r)->Object_0 =~= handshake_spec(client_id@, nonce@)->Object_0);
    r
}

/// Builds the activity update request for the process `pid`.
pub fn activity_update_payload(pid: u32, activity: &Option<Activity>, nonce: &str) -> (r: Result<
    JsonValue,
    RpcError,
>)
    ensures
        activity_update_encodable(*activity) ==> r is Ok && json_view(r->Ok_0)
            == activity_update_spec(pid, *activity, nonce@),
        !activity_update_encodable(*activity) ==> r == Err::<JsonValue, RpcError>(
            RpcError::Encoding,
        ),
{
    let body = match activity {
        Some(a) => a.to_json()?,
        None => JsonValue::Null,
    };
    let mut args: Vec<(String, JsonValue)> = Vec::new();
    assert(members_view(args@) =~= Seq::empty());
    push_member(&mut args, "pid", JsonValue::Number(pid as u64));
    push_member(&mut args, "activity", body);
    let args = object(args);
    let mut members: Vec<(String, JsonValue)> = Vec::new();
    assert(members_view(members@) =~= Seq::empty());
    push_member(&mut members, "cmd", JsonValue::Text("SET_ACTIVITY".to_owned()));
    push_member(&mut members, "args", args);
    push_member(&mut members, "nonce", JsonValue::Text(nonce.to_owned()));
    let r = object(members);
    assert(json_view(args)->Object_0 =~= activity_update_spec(
        pid,
        *activity,
        nonce@,
    )->Object_0[1].1->Object_0);
    assert(json_view(r)->Object_0 =~= activity_update_spec(pid, *activity, nonce@)->Object_0);
    Ok(r)
}

/// Whether `v` is the JSON string of some text.
pub open spec fn is_text_field(v: JsonSpec, key: Seq<char>) -> bool {
    v.field(key) matches Some(JsonSpec::Text(_))
}

/// Whether `v` describes a user: four text fields and flags that fit 16 bits.
pub open spec fn user_readable(v: JsonSpec) -> bool {
    &&& is_text_field(v, "id"@)
    &&& is_text_field(v, "username"@)
    &&& is_text_field(v, "discriminator"@)
    &&& is_text_field(v, "avatar"@)
    &&& v.field("flags"@) matches Some(JsonSpec::Number(n)) && n <= u16::MAX
}

/// The object under `data.user` in a handshake response.
pub open spec fn response_user(response: JsonSpec) -> Option<JsonSpec> {
    match response.field("data"@) {
        Some(data) => data.field("user"@),
        None => None,
    }
}

impl User {
    /// Whether this user is the one that `v` describes.
    pub open spec fn described_by(self, v: JsonSpec) -> bool {
        &&& v.field("id"@) == Some(JsonSpec::Text(self.id@))
        &&& v.field("username"@) == Some(JsonSpec::Text(self.username@))
        &&& v.field("discriminator"@) == Some(JsonSpec::Text(self.discriminator@))
        &&& v.field("avatar"@) == Some(JsonSpec::Text(self.avatar@))
        &&& v.field("flags"@) == Some(JsonSpec::Number(self.flags as u64))
    }

    /// Reads a user from its JSON object.
    pub fn from_json(v: &JsonValue) -> (r: Result<User, RpcError>)
        ensures
            r is Ok <==> user_readable(json_view(*v)),
            r matches Ok(u) ==> u.described_by(json_view(*v)),
            r is Err ==> r == Err::<User, RpcError>(RpcError::Protocol),
    {
        let id = match v.get("id") {
            Some(f) => match f.as_text() {
                Some(t) => t.clone(),
                None => return Err(RpcError::Protocol),
            },
            None => return Err(RpcError::Protocol),
        };
        let username = match v.get("username") {
            Some(f) => match f.as_text() {
                Some(t) => t.clone(),
                None => return Err(RpcError::Protocol),
            },
            None => return Err(RpcError::Protocol),
        };
        let discriminator = match v.get("discriminator") {
            Some(f) => match f.as_text() {
                Some(t) => t.clone(),
                None => return Err(RpcError::Protocol),
            },
            None => return Err(RpcError::Protocol),
        };
        let avatar = match v.get("avatar") {
            Some(f) => match f.as_text() {
                Some(t) => t.clone(),
                None => return Err(RpcError::Protocol),
            },
            None => return Err(RpcError::Protocol),
        };
        let flags = match v.get("flags") {
            Some(f) => match f.as_u64() {
                Some(n) => {
                    if n > 0xffff {
                        return Err(RpcError::Protocol);
                    }
                    n as u16
                },
                None => return Err(RpcError::Protocol),
            },
            None => return Err(RpcError::Protocol),
        };
        Ok(User { id, username, discriminator, avatar, flags })
    }
}

/// Reads the user that a handshake response carries under `data.user`.
pub fn handshake_user(response: &JsonValue) -> (r: Result<User, RpcError>)
    ensures
        r is Ok <==> (response_user(json_view(*response)) matches Some(u) && user_readable(u)),
        r matches Ok(user) ==> user.described_by(response_user(json_view(*response))->Some_0),
        r is Err ==> r == Err::<User, RpcError>(RpcError::Protocol),
{
    match response.get("data") {
        Some(data) => match data.get("user") {
            Some(user) => User::from_json(user),
            None => Err(RpcError::Protocol),
        },
        None => Err(RpcError::Protocol),
    }
}

} // verus!
