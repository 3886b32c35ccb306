//! The token that the provider hands out, and how it is read from JSON.
use vstd::prelude::*;

use crate::json::{
    decode_flag_member, decode_opt_str_member, decode_str_member, find_member, flag_member, lemma_lookup_at,
    lookup, opt_str_member, str_member, JsonValue,
};

verus! {

/// The user who granted access, as far as this library reads it.
#[derive(Debug, Clone, PartialEq, Eq)]
pub struct User {
    pub id: String,
    pub name: Option<String>,
    pub avatar_url: Option<String>,
}

/// What kind of party owns a token. Names that the provider may add later
/// are kept as they came.
#[derive(Debug, Clone, PartialEq, Eq)]
pub enum OwnerType {
    User,
    Workspace,
    Other(String),
}

/// The party that owns a token.
#[derive(Debug, Clone, PartialEq, Eq)]
pub struct Owner {
    /// Whether the token belongs to the workspace; `false` where the
    /// provider leaves it out.
    pub workspace: bool,
    pub owner_type: OwnerType,
    pub user: Option<User>,
}

/// A decoded token response.
#[derive(Debug, Clone, PartialEq, Eq)]
pub struct Token {
    pub access_token: String,
    pub bot_id: String,
    pub token_type: Option<String>,
    pub duplicated_template_id: Option<String>,
    pub owner: Owner,
    pub workspace_icon: Option<String>,
    pub workspace_id: String,
    pub workspace_name: String,
}

/// The value that `Owner::workspace` takes where the member is absent.
pub fn default_workspace() -> (r: bool)
    ensures
        r == false,
{
    false
}

/// The owner type that a `type` member names.
pub open spec fn owner_type_of(name: String) -> OwnerType {
    if name@ == "user"@ {
        OwnerType::User
    } else if name@ == "workspace"@ {
        OwnerType::Workspace
    } else {
        OwnerType::Other(name)
    }
}

impl OwnerType {
    /// An unrecognised name is never one of the recognised ones.
    pub open spec fn wf(self) -> bool {
        self matches OwnerType::Other(s) ==> s@ != "user"@ && s@ != "workspace"@
    }

    /// Classifies a `type` member.
    pub fn from_name(name: String) -> (r: OwnerType)
        ensures
            r == owner_type_of(name),
            r.wf(),
    {
        proof {
            reveal_strlit("user");
            reveal_strlit("workspace");
        }
        if name == "user".to_string() {
            OwnerType::User
        } else if name == "workspace".to_string() {
            OwnerType::Workspace
        } else {
            OwnerType::Other(name)
        }
    }
}

/// The user that a JSON value describes, if it is a well-formed one.
pub open spec fn user_of(j: JsonValue) -> Option<User> {
    match j {
        JsonValue::Object(f) => {
            if str_member(f@, "id"@) is Some && opt_str_member(f@, "name"@) is Some
                && opt_str_member(f@, "avatar_url"@) is Some {
                Some(
                    User {
                        id: str_member(f@, "id"@)->0,
                        name: opt_str_member(f@, "name"@)->0,
                        avatar_url: opt_str_member(f@, "avatar_url"@)->0,
                    },
                )
            } else {
                None
            }
        },
        _ => None,
    }
}

/// Decoding of an optional user member: absent and null give no user.
pub open spec fn user_member(fields: Seq<(String, JsonValue)>, key: Seq<char>) -> Option<Option<User>> {
    match lookup(fields, key) {
        None => Some(None),
        Some(JsonValue::Null) => Some(None),
        Some(v) => match user_of(v) {
            Some(u) => Some(Some(u)),
            None => None,
        },
    }
}

/// The owner that a JSON value describes, if it is a well-formed one.
pub open spec fn owner_of(j: JsonValue) -> Option<Owner> {
    match j {
        JsonValue::Object(g) => {
            if flag_member(g@, "workspace"@) is Some && str_member(g@, "type"@) is Some
                && user_member(g@, "user"@) is Some {
                Some(
                    Owner {
                        workspace: flag_member(g@, "workspace"@)->0,
                        owner_type: owner_type_of(str_member(g@, "type"@)->0),
                        user: user_member(g@, "user"@)->0,
                    },
                )
            } else {
                None
            }
        },
        _ => None,
    }
}

/// Decoding of the `owner` member, which is required.
pub open spec fn owner_member(fields: Seq<(String, JsonValue)>) -> Option<Owner> {
    match lookup(fields, "owner"@) {
        Some(v) => owner_of(v),
        None => None,
    }
}

/// Every member of a token object, but the one named `skip`, decodes under
/// its own rule.
pub open spec fn token_members_ok_except(f: Seq<(String, JsonValue)>, skip: Seq<char>) -> bool {
    &&& skip != "access_token"@ ==> str_member(f, "access_token"@) is Some
    &&& skip != "bot_id"@ ==> str_member(f, "bot_id"@) is Some
    &&& skip != "token_type"@ ==> opt_str_member(f, "token_type"@) is Some
    &&& skip != "duplicated_template_id"@ ==> opt_str_member(f, "duplicated_template_id"@) is Some
    &&& skip != "owner"@ ==> owner_member(f) is Some
    &&& skip != "workspace_icon"@ ==> opt_str_member(f, "workspace_icon"@) is Some
    &&& skip != "workspace_id"@ ==> str_member(f, "workspace_id"@) is Some
    &&& skip != "workspace_name"@ ==> str_member(f, "workspace_name"@) is Some
}

/// Every member of a token object decodes under its own rule.
pub open spec fn token_members_ok(f: Seq<(String, JsonValue)>) -> bool {
    &&& str_member(f, "access_token"@) is Some
    &&& str_member(f, "bot_id"@) is Some
    &&& opt_str_member(f, "token_type"@) is Some
    &&& opt_str_member(f, "duplicated_template_id"@) is Some
    &&& owner_member(f) is Some
    &&& opt_str_member(f, "workspace_icon"@) is Some
    &&& str_member(f, "workspace_id"@) is Some
    &&& str_member(f, "workspace_name"@) is Some
}

/// The token that a JSON value describes; `None` where it is not an object or
/// any member breaks its rule. Members of other names are ignored.
pub open spec fn token_of(j: JsonValue) -> Option<Token> {
    match j {
        JsonValue::Object(f) => {
            if token_members_ok(f@) {
                Some(
                    Token {
                        access_token: str_member(f@, "access_token"@)->0,
                        bot_id: str_member(f@, "bot_id"@)->0,
                        token_type: opt_str_member(f@, "token_type"@)->0,
                        duplicated_template_id: opt_str_member(f@, "duplicated_template_id"@)->0,
                        owner: owner_member(f@)->0,
                        workspace_icon: opt_str_member(f@, "workspace_icon"@)->0,
                        workspace_id: str_member(f@, "workspace_id"@)->0,
                        workspace_name: str_member(f@, "workspace_name"@)->0,
                    },
                )
            } else {
                None
            }
        },
        _ => None,
    }
}

impl User {
    /// Reads a user from a JSON value.
    pub fn from_json(j: &JsonValue) -> (r: Option<User>)
        ensures
            r == user_of(*j),
    {
        match j {
            JsonValue::Object(f) => {
                let id = decode_str_member(f, "id");
                let name = decode_opt_str_member(f, "name");
                let avatar_url = decode_opt_str_member(f, "avatar_url");
                match (id, name, avatar_url) {
                    (Some(id), Some(name), Some(avatar_url)) => Some(User { id, name, avatar_url }),
                    _ => None,
                }
            },
            _ => None,
        }
    }
}

/// The JSON form of an optional string: the string, or null.
fn opt_str_json(o: &Option<String>) -> (r: JsonValue)
    ensures
        r == (match *o {
            Some(s) => JsonValue::Str(s),
            None => JsonValue::Null,
        }),
{
    match o {
        Some(s) => JsonValue::Str(s.clone()),
        None => JsonValue::Null,
    }
}

impl User {
    /// The JSON object that describes this user.
    pub fn to_json(&self) -> (r: JsonValue)
        ensures
            user_of(r) == Some(*self),
    {
        let mut f: Vec<(String, JsonValue)> = Vec::new();
        f.push(("id".to_string(), JsonValue::Str(self.id.clone())));
        f.push(("name".to_string(), opt_str_json(&self.name)));
        f.push(("avatar_url".to_string(), opt_str_json(&self.avatar_url)));
        proof {
            reveal_strlit("id");
            reveal_strlit("name");
            reveal_strlit("avatar_url");
            assert(f@[0].0@ == "id"@ && f@[1].0@ == "name"@ && f@[2].0@ == "avatar_url"@);
            lemma_lookup_at(f@, "id"@, 0);
            lemma_lookup_at(f@, "name"@, 1);
            lemma_lookup_at(f@, "avatar_url"@, 2);
        }
        JsonValue::Object(f)
    }
}

impl OwnerType {
    /// The name under which the provider sends this owner type.
    pub fn name(&self) -> (r: String)
        requires
            self.wf(),
        ensures
            owner_type_of(r) == *self,
    {
        proof {
            reveal_strlit("user");
            reveal_strlit("workspace");
        }
        match self {
            OwnerType::User => {
                let s = "user".to_string();
                assert(s@ == "user"@);
                s
            },
            OwnerType::Workspace => {
                let s = "workspace".to_string();
                assert(s@ == "workspace"@);
                s
            },
            OwnerType::Other(s) => s.clone(),
        }
    }
}

impl Owner {
    /// The JSON object that describes this owner.
    pub fn to_json(&self) -> (r: JsonValue)
        requires
            self.owner_type.wf(),
        ensures
            owner_of(r) == Some(*self),
    {
        let user = match &self.user {
            Some(u) => u.to_json(),
            None => JsonValue::Null,
        };
        let mut g: Vec<(String, JsonValue)> = Vec::new();
        g.push(("workspace".to_string(), JsonValue::Bool(self.workspace)));
        g.push(("type".to_string(), JsonValue::Str(self.owner_type.name())));
        g.push(("user".to_string(), user));
        proof {
            reveal_strlit("workspace");
            reveal_strlit("type");
            reveal_strlit("user");
            assert(g@[0].0@ == "workspace"@ && g@[1].0@ == "type"@ && g@[2].0@ == "user"@);
            lemma_lookup_at(g@, "workspace"@, 0);
            lemma_lookup_at(g@, "type"@, 1);
            assert(g@[1].0@[0] != "user"@[0]);
            lemma_lookup_at(g@, "user"@, 2);
        }
        JsonValue::Object(g)
    }
}

impl Token {
    /// A token whose owner type, if unrecognised, bears no recognised name.
    pub open spec fn wf(self) -> bool {
        self.owner.owner_type.wf()
    }

    /// The JSON object that describes this token. Absent optional members
    /// are written as null; reading the object back gives the same token.
    pub fn to_json(&self) -> (r: JsonValue)
        requires
            self.wf(),
        ensures
            token_of(r) == Some(*self),
    {
        let mut f: Vec<(String, JsonValue)> = Vec::new();
        f.push(("access_token".to_string(), JsonValue::Str(self.access_token.clone())));
        f.push(("bot_id".to_string(), JsonValue::Str(self.bot_id.clone())));
        f.push(("token_type".to_string(), opt_str_json(&self.token_type)));
        f.push(("duplicated_template_id".to_string(), opt_str_json(&self.duplicated_template_id)));
        f.push(("owner".to_string(), self.owner.to_json()));
        f.push(("workspace_icon".to_string(), opt_str_json(&self.workspace_icon)));
        f.push(("workspace_id".to_string(), JsonValue::Str(self.workspace_id.clone())));
        f.push(("workspace_name".to_string(), JsonValue::Str(self.workspace_name.clone())));
        proof {
            reveal_strlit("access_token");
            reveal_strlit("bot_id");
            reveal_strlit("token_type");
            reveal_strlit("duplicated_template_id");
            reveal_strlit("owner");
            reveal_strlit("workspace_icon");
            reveal_strlit("workspace_id");
            reveal_strlit("workspace_name");
            assert(f@[0].0@ == "access_token"@ && f@[1].0@ == "bot_id"@ && f@[2].0@ == "token_type"@);
            assert(f@[3].0@ == "duplicated_template_id"@ && f@[4].0@ == "owner"@);
            assert(f@[5].0@ == "workspace_icon"@ && f@[6].0@ == "workspace_id"@ && f@[7].0@ == "workspace_name"@);
            lemma_lookup_at(f@, "access_token"@, 0);
            lemma_lookup_at(f@, "bot_id"@, 1);
            lemma_lookup_at(f@, "token_type"@, 2);
            lemma_lookup_at(f@, "duplicated_template_id"@, 3);
            lemma_lookup_at(f@, "owner"@, 4);
            lemma_lookup_at(f@, "workspace_icon"@, 5);
            assert(f@[0].0@[0] != "workspace_id"@[0]);
            assert(f@[5].0@[10] != "workspace_name"@[10]);
            assert(f@[0].0@[0] != "workspace_name"@[0]);
            lemma_lookup_at(f@, "workspace_id"@, 6);
            lemma_lookup_at(f@, "workspace_name"@, 7);
        }
        JsonValue::Object(f)
    }
}

/// A `workspace_icon` that is null decodes to no value: it never makes a
/// token fail to decode, and the token has no icon.
pub proof fn lemma_null_icon_is_no_value(j: JsonValue)
    requires
        j matches JsonValue::Object(f) && lookup(f@, "workspace_icon"@) == Some(JsonValue::Null),
    ensures
        token_of(j) is Some <==> token_members_ok_except(j->Object_0@, "workspace_icon"@),
        token_of(j) matches Some(t) ==> t.workspace_icon is None,
{
    lemma_skipped_member_decodes(j->Object_0@, "workspace_icon"@);
}

/// A `token_type` that is absent decodes to no value: it never makes a token
/// fail to decode, and the token has no type.
pub proof fn lemma_absent_token_type_is_no_value(j: JsonValue)
    requires
        j matches JsonValue::Object(f) && lookup(f@, "token_type"@) is None,
    ensures
        token_of(j) is Some <==> token_members_ok_except(j->Object_0@, "token_type"@),
        token_of(j) matches Some(t) ==> t.token_type is None,
{
    lemma_skipped_member_decodes(j->Object_0@, "token_type"@);
}

/// An owner without a `workspace` member decodes with `workspace` false, and
/// the absence never makes it fail to decode; so does a token with such an
/// owner.
pub proof fn lemma_absent_workspace_is_false(j: JsonValue)
    requires
        j matches JsonValue::Object(g) && lookup(g@, "workspace"@) is None,
    ensures
        owner_of(j) is Some <==> (str_member(j->Object_0@, "type"@) is Some
            && user_member(j->Object_0@, "user"@) is Some),
        owner_of(j) matches Some(o) ==> !o.workspace,
        forall|t: JsonValue|
            (#[trigger] token_of(t) is Some && (t matches JsonValue::Object(f) && lookup(f@, "owner"@)
                == Some(j))) ==> !token_of(t)->0.owner.workspace,
{
    assert forall|t: JsonValue|
        (#[trigger] token_of(t) is Some && (t matches JsonValue::Object(f) && lookup(f@, "owner"@)
            == Some(j))) implies !token_of(t)->0.owner.workspace by {
        let f = t->Object_0;
        assert(owner_member(f@) == owner_of(j));
    }
}

proof fn lemma_skipped_member_decodes(f: Seq<(String, JsonValue)>, skip: Seq<char>)
    requires
        skip == "workspace_icon"@ ==> opt_str_member(f, skip) is Some,
        skip == "token_type"@ ==> opt_str_member(f, skip) is Some,
        skip == "workspace_icon"@ || skip == "token_type"@,
    ensures
        token_members_ok(f) <==> token_members_ok_except(f, skip),
{
    reveal_strlit("access_token");
    reveal_strlit("bot_id");
    reveal_strlit("token_type");
    reveal_strlit("duplicated_template_id");
    reveal_strlit("owner");
    reveal_strlit("workspace_icon");
    reveal_strlit("workspace_id");
    reveal_strlit("workspace_name");
    assert("access_token"@.len() == 12 && "bot_id"@.len() == 6 && "token_type"@.len() == 10);
    assert("duplicated_template_id"@.len() == 22 && "owner"@.len() == 5);
    assert("workspace_icon"@.len() == 14 && "workspace_id"@.len() == 12);
    assert("workspace_name"@.len() == 14);
    assert("workspace_icon"@[10] != "workspace_name"@[10]);
}

/// A token object that lacks a required member does not decode.
pub proof fn lemma_missing_required_member(j: JsonValue, key: Seq<char>)
    requires
        key == "access_token"@ || key == "bot_id"@ || key == "owner"@ || key == "workspace_id"@
            || key == "workspace_name"@,
        j matches JsonValue::Object(f) && lookup(f@, key) is None,
    ensures
        token_of(j) is None,
{
    reveal_strlit("access_token");
    reveal_strlit("bot_id");
    reveal_strlit("owner");
    reveal_strlit("workspace_id");
    reveal_strlit("workspace_name");
    assert("access_token"@.len() == 12 && "bot_id"@.len() == 6 && "owner"@.len() == 5);
    assert("workspace_id"@.len() == 12 && "workspace_name"@.len() == 14);
}

/// Every decoded token is well formed, so that writing it out as JSON and
/// reading it back gives the same token.
pub proof fn lemma_decoded_token_is_wf(j: JsonValue)
    requires
        token_of(j) is Some,
    ensures
        token_of(j)->0.wf(),
{
    reveal_strlit("user");
    reveal_strlit("workspace");
}

/// Decodes an optional user member.
fn decode_user_member(fields: &Vec<(String, JsonValue)>, key: &str) -> (r: Option<Option<User>>)
    ensures
        r == user_member(fields@, key@),
{
    let k = key.to_string();
    match find_member(fields, &k) {
        None => Some(None),
        Some(JsonValue::Null) => Some(None),
        Some(v) => match User::from_json(v) {
            Some(u) => Some(Some(u)),
            None => None,
        },
    }
}

impl Owner {
    /// Reads an owner from a JSON value.
    pub fn from_json(j: &JsonValue) -> (r: Option<Owner>)
        ensures
            r == owner_of(*j),
    {
        match j {
            JsonValue::Object(g) => {
                let workspace = decode_flag_member(g, "workspace");
                let owner_type = decode_str_member(g, "type");
                let user = decode_user_member(g, "user");
                match (workspace, owner_type, user) {
                    (Some(workspace), Some(name), Some(user)) => Some(
                        Owner { workspace, owner_type: OwnerType::from_name(name), user },
                    ),
                    _ => None,
                }
            },
            _ => None,
        }
    }
}

impl Token {
    /// Reads a token from a JSON value.
    pub fn from_json(j: &JsonValue) -> (r: Option<Token>)
        ensures
            r == token_of(*j),
            r matches Some(t) ==> t.wf(),
    {
        match j {
            JsonValue::Object(f) => {
                let k = "owner".to_string();
                let owner = match find_member(f, &k) {
                    Some(v) => Owner::from_json(v),
                    None => None,
                };
                let access_token = decode_str_member(f, "access_token");
                let bot_id = decode_str_member(f, "bot_id");
                let token_type = decode_opt_str_member(f, "token_type");
                let duplicated_template_id = decode_opt_str_member(f, "duplicated_template_id");
                let workspace_icon = decode_opt_str_member(f, "workspace_icon");
                let workspace_id = decode_str_member(f, "workspace_id");
                let workspace_name = decode_str_member(f, "workspace_name");
                match (access_token, bot_id, token_type, duplicated_template_id, owner) {
                    (Some(access_token), Some(bot_id), Some(token_type), Some(duplicated_template_id), Some(owner)) => {
                        match (workspace_icon, workspace_id, workspace_name) {
                            (Some(workspace_icon), Some(workspace_id), Some(workspace_name)) => Some(
                                Token {
                                    access_token,
                                    bot_id,
                                    token_type,
                                    duplicated_template_id,
                                    owner,
                                    workspace_icon,
                                    workspace_id,
                                    workspace_name,
                                },
                            ),
                            _ => None,
                        }
                    },
                    _ => None,
                }
            },
            _ => None,
        }
    }
}

} // verus!
