//! The web API requests that the bot makes (endpoint, multipart form fields,
//! cookie) and what it takes from the responses.
use vstd::prelude::*;

use crate::bridge::{blocks_json, blocks_to_json, json_quoted, new_v4_string};
use crate::model::{preference_json, Preference};
use crate::ids::{ChannelId, Ts, UserId};
use crate::text::{copy_string, push_str};
use slack_morphism::blocks::SlackBlock;
use slack_morphism::SlackChannelInfo;

verus! {

/// What can go wrong with a request.
#[derive(Debug)]
pub enum ApiError {
    SerdeJsonSerializationError(serde_json::Error),
    RequestError(reqwest::Error),
    RespNotOk,
    FileAccessError(std::io::Error),
}

/// The content of a message: plain text, blocks, or both.
#[derive(Debug)]
pub enum MessageData {
    Raw(String),
    Blockkit(Vec<SlackBlock>),
    Multi(String, Vec<SlackBlock>),
}

impl From<String> for MessageData {
    fn from(s: String) -> (r: MessageData) {
        MessageData::Raw(s)
    }
}

impl vstd::std_specs::convert::FromSpecImpl<String> for MessageData {
    open spec fn obeys_from_spec() -> bool {
        true
    }

    open spec fn from_spec(s: String) -> MessageData {
        MessageData::Raw(s)
    }
}

impl From<Vec<SlackBlock>> for MessageData {
    fn from(value: Vec<SlackBlock>) -> (r: MessageData) {
        MessageData::Blockkit(value)
    }
}

impl vstd::std_specs::convert::FromSpecImpl<Vec<SlackBlock>> for MessageData {
    open spec fn obeys_from_spec() -> bool {
        true
    }

    open spec fn from_spec(value: Vec<SlackBlock>) -> MessageData {
        MessageData::Blockkit(value)
    }
}

impl From<(String, Vec<SlackBlock>)> for MessageData {
    fn from(value: (String, Vec<SlackBlock>)) -> (r: MessageData) {
        MessageData::Multi(value.0, value.1)
    }
}

impl vstd::std_specs::convert::FromSpecImpl<(String, Vec<SlackBlock>)> for MessageData {
    open spec fn obeys_from_spec() -> bool {
        true
    }

    open spec fn from_spec(value: (String, Vec<SlackBlock>)) -> MessageData {
        MessageData::Multi(value.0, value.1)
    }
}

/// Which token a request is made with.
#[derive(Clone, Copy, Debug, PartialEq, Eq)]
pub enum TokenKind {
    SubXoxc,
    Xoxc,
}

/// The credentials and workspace that requests are made for.
#[derive(Clone, Debug)]
pub struct APIClient {
    pub host: String,
    pub sub_xoxc: Option<String>,
    pub xoxc: String,
    pub xoxd: String,
    pub team_id: String,
}

/// A multipart POST request: where it goes, its text fields in order, and
/// the file it uploads, if any (field name and path).
#[derive(Debug)]
pub struct FormRequest {
    pub url: String,
    pub fields: Vec<(String, String)>,
    pub file: Option<(String, String)>,
}

/// The fields of a form, as pairs of texts.
pub open spec fn fields_view(f: Seq<(String, String)>) -> Seq<(Seq<char>, Seq<char>)> {
    f.map_values(|p: (String, String)| (p.0@, p.1@))
}

/// The texts of a list of strings.
pub open spec fn string_views(v: Seq<String>) -> Seq<Seq<char>> {
    v.map_values(|s: String| s@)
}

/// The address of API method `method` on `host`.
pub open spec fn spec_endpoint(host: Seq<char>, method: Seq<char>) -> Seq<char> {
    "https://"@ + host + "/api/"@ + method
}

/// `"true"` or `"false"`.
pub open spec fn bool_text(b: bool) -> Seq<char> {
    if b {
        "true"@
    } else {
        "false"@
    }
}

/// The texts of `items` joined with `sep` between them.
pub open spec fn join(items: Seq<Seq<char>>, sep: Seq<char>) -> Seq<char>
    decreases items.len(),
{
    if items.len() == 0 {
        Seq::empty()
    } else if items.len() == 1 {
        items[0]
    } else {
        join(items.drop_last(), sep) + sep + items.last()
    }
}

/// The ids of users, as texts.
pub open spec fn user_texts(v: Seq<UserId>) -> Seq<Seq<char>> {
    v.map_values(|u: UserId| u@)
}

/// The ids of channels, as texts.
pub open spec fn channel_texts(v: Seq<ChannelId>) -> Seq<Seq<char>> {
    v.map_values(|c: ChannelId| c@)
}

fn lit(s: &str) -> (r: String)
    ensures
        r@ == s@,
{
    let mut r = String::new();
    push_str(&mut r, s);
    r
}

fn field(key: &str, value: String) -> (r: (String, String))
    ensures
        r.0@ == key@,
        r.1@ == value@,
{
    (lit(key), value)
}

/// Appends the field `key` = `value` to a form.
fn push_field(f: &mut Vec<(String, String)>, key: &str, value: String)
    ensures
        fields_view(final(f)@) == fields_view(old(f)@).push((key@, value@)),
{
    let ghost before = f@;
    let fld = field(key, value);
    f.push(fld);
    assert(fields_view(f@) =~= fields_view(before).push((key@, value@)));
}

/// `"true"` or `"false"` (`bool::to_string`).
pub fn bool_to_string(b: bool) -> (r: String)
    ensures
        r@ == bool_text(b),
{
    if b {
        lit("true")
    } else {
        lit("false")
    }
}

/// The texts of `items` joined with commas (`join(",")`).
pub fn join_texts(items: &Vec<String>, sep: &str) -> (r: String)
    ensures
        r@ == join(string_views(items@), sep@),
{
    let ghost views = string_views(items@);
    let mut r = String::new();
    let mut i: usize = 0;
    while i < items.len()
        invariant
            i <= items.len(),
            views == string_views(items@),
            r@ == join(views.take(i as int), sep@),
        decreases items.len() - i,
    {
        if i != 0 {
            push_str(&mut r, sep);
        }
        push_str(&mut r, items[i].as_str());
        proof {
            let t = views.take(i + 1);
            assert(t.drop_last() =~= views.take(i as int));
            assert(t.last() == items@[i as int]@);
            if i == 0 {
                assert(views.take(0) =~= Seq::<Seq<char>>::empty());
            }
        }
        i = i + 1;
    }
    assert(views.take(items.len() as int) =~= views);
    r
}

/// The ids of `users` as texts.
pub fn user_id_strings(users: &Vec<UserId>) -> (r: Vec<String>)
    ensures
        string_views(r@) == user_texts(users@),
{
    let mut r: Vec<String> = Vec::new();
    let mut i: usize = 0;
    while i < users.len()
        invariant
            i <= users.len(),
            string_views(r@) == user_texts(users@).take(i as int),
        decreases users.len() - i,
    {
        let s = users[i].0.clone();
        let ghost prev = r@;
        r.push(s);
        proof {
            assert(string_views(r@) =~= string_views(prev).push(users@[i as int]@));
            assert(user_texts(users@).take(i + 1) =~= user_texts(users@).take(i as int).push(
                users@[i as int]@,
            ));
        }
        i = i + 1;
    }
    assert(user_texts(users@).take(users.len() as int) =~= user_texts(users@));
    r
}

/// The ids of `channels` as texts.
pub fn channel_id_strings(channels: &Vec<ChannelId>) -> (r: Vec<String>)
    ensures
        string_views(r@) == channel_texts(channels@),
{
    let mut r: Vec<String> = Vec::new();
    let mut i: usize = 0;
    while i < channels.len()
        invariant
            i <= channels.len(),
            string_views(r@) == channel_texts(channels@).take(i as int),
        decreases channels.len() - i,
    {
        let s = channels[i].0.clone();
        let ghost prev = r@;
        r.push(s);
        proof {
            assert(string_views(r@) =~= string_views(prev).push(channels@[i as int]@));
            assert(channel_texts(channels@).take(i + 1) =~= channel_texts(channels@).take(i as int).push(
                channels@[i as int]@,
            ));
        }
        i = i + 1;
    }
    assert(channel_texts(channels@).take(channels.len() as int) =~= channel_texts(channels@));
    r
}

/// The form fields that carry a message's content.
pub open spec fn message_fields(blocks: MessageData) -> Seq<(Seq<char>, Seq<char>)> {
    match blocks {
        MessageData::Raw(s) => seq![("text"@, s@)],
        MessageData::Blockkit(b) => seq![("blocks"@, blocks_json(b@).unwrap())],
        MessageData::Multi(s, b) => seq![("text"@, s@), ("blocks"@, blocks_json(b@).unwrap())],
    }
}

/// Whether a message's blocks cannot be turned into JSON.
pub open spec fn message_json_fails(blocks: MessageData) -> bool {
    match blocks {
        MessageData::Raw(_) => false,
        MessageData::Blockkit(b) => blocks_json(b@) is None,
        MessageData::Multi(_, b) => blocks_json(b@) is None,
    }
}

/// The `thread_ts` field, when the message goes into a thread.
pub open spec fn thread_fields(thread_ts: Option<Ts>) -> Seq<(Seq<char>, Seq<char>)> {
    match thread_ts {
        Some(t) => seq![("thread_ts"@, t@)],
        None => Seq::empty(),
    }
}

/// The role whose members manage a channel.
pub open spec fn manager_role() -> Seq<char> {
    "Rl0A"@
}

impl APIClient {
    /// A client for `host` with the given tokens and workspace.
    pub fn new(
        sub_xoxc: Option<String>,
        xoxc: String,
        xoxd: String,
        host: String,
        team_id: String,
    ) -> (r: APIClient)
        ensures
            r.sub_xoxc == sub_xoxc,
            r.xoxc == xoxc,
            r.xoxd == xoxd,
            r.host == host,
            r.team_id == team_id,
    {
        APIClient { host, sub_xoxc, xoxc, xoxd, team_id }
    }

    /// The `Cookie` header sent with every request: `tz=0; d=<xoxd>`.
    pub fn cookie_header(&self) -> (r: String)
        ensures
            r@ == "tz=0; d="@ + self.xoxd@,
    {
        let mut r = lit("tz=0; d=");
        push_str(&mut r, self.xoxd.as_str());
        r
    }

    /// The token of kind `kind`: the sub-token when asked for and present,
    /// else the main token.
    pub open spec fn spec_token(&self, kind: TokenKind) -> Seq<char> {
        match kind {
            TokenKind::Xoxc => self.xoxc@,
            TokenKind::SubXoxc => match self.sub_xoxc {
                Some(t) => t@,
                None => self.xoxc@,
            },
        }
    }

    fn token(&self, kind: TokenKind) -> (r: String)
        ensures
            r@ == self.spec_token(kind),
    {
        match kind {
            TokenKind::Xoxc => copy_string(&self.xoxc),
            TokenKind::SubXoxc => match &self.sub_xoxc {
                Some(t) => copy_string(t),
                None => copy_string(&self.xoxc),
            },
        }
    }

    /// The address of API method `method`.
    pub fn endpoint(&self, method: &str) -> (r: String)
        ensures
            r@ == spec_endpoint(self.host@, method@),
    {
        let mut r = lit("https://");
        push_str(&mut r, self.host.as_str());
        push_str(&mut r, "/api/");
        push_str(&mut r, method);
        r
    }

    /// The form every request starts with: the token of `kind`.
    pub fn get_base_form(&self, kind: TokenKind) -> (r: Vec<(String, String)>)
        ensures
            fields_view(r@) == seq![("token"@, self.spec_token(kind))],
    {
        let mut f: Vec<(String, String)> = Vec::new();
        assert(fields_view(f@) =~= Seq::empty());
        push_field(&mut f, "token", self.token(kind));
        assert(fields_view(f@) =~= seq![("token"@, self.spec_token(kind))]);
        f
    }

    /// The request that posts a message to `channel` (in thread `thread_ts`
    /// when given), with message id `client_msg_id`. Fails only where the
    /// blocks cannot be turned into JSON.
    pub fn chat_post_message_request(
        &self,
        channel: &ChannelId,
        thread_ts: &Option<Ts>,
        blocks: &MessageData,
        client_msg_id: String,
    ) -> (r: Result<FormRequest, ApiError>)
        ensures
            r is Err <==> message_json_fails(*blocks),
            r matches Err(e) ==> e is SerdeJsonSerializationError,
            r matches Ok(req) ==> {
                &&& req.url@ == spec_endpoint(self.host@, "chat.postMessage"@)
                &&& fields_view(req.fields@) == seq![
                    ("token"@, self.xoxc@),
                    ("channel"@, channel@),
                    ("type"@, "message"@),
                    ("client_msg_id"@, client_msg_id@),
                ] + message_fields(*blocks) + thread_fields(*thread_ts)
                &&& req.file.is_none()
            },
    {
        let mut f = self.get_base_form(TokenKind::Xoxc);
        push_field(&mut f, "channel", copy_string(&channel.0));
        push_field(&mut f, "type", lit("message"));
        push_field(&mut f, "client_msg_id", client_msg_id);
        let ghost head = fields_view(f@);
        match blocks {
            MessageData::Raw(s) => {
                push_field(&mut f, "text", copy_string(s));
            },
            MessageData::Blockkit(b) => {
                match blocks_to_json(b) {
                    Ok(j) => {
                        push_field(&mut f, "blocks", j);
                    },
                    Err(e) => {
                        return Err(ApiError::SerdeJsonSerializationError(e));
                    },
                }
            },
            MessageData::Multi(s, b) => {
                push_field(&mut f, "text", copy_string(s));
                match blocks_to_json(b) {
                    Ok(j) => {
                        push_field(&mut f, "blocks", j);
                    },
                    Err(e) => {
                        return Err(ApiError::SerdeJsonSerializationError(e));
                    },
                }
            },
        }
        let ghost mid = fields_view(f@);
        assert(mid =~= head + message_fields(*blocks));
        match thread_ts {
            Some(t) => {
                push_field(&mut f, "thread_ts", copy_string(&t.0));
            },
            None => {},
        }
        assert(fields_view(f@) =~= mid + thread_fields(*thread_ts));
        Ok(FormRequest { url: self.endpoint("chat.postMessage"), fields: f, file: None })
    }

    /// The request that posts a message, with a fresh random message id.
    pub fn chat_post_message(
        &self,
        channel: &ChannelId,
        thread_ts: &Option<Ts>,
        blocks: &MessageData,
    ) -> (r: Result<FormRequest, ApiError>)
        ensures
            r is Err <==> message_json_fails(*blocks),
            r matches Err(e) ==> e is SerdeJsonSerializationError,
            r matches Ok(req) ==> exists|id: Seq<char>|
                {
                    &&& id.len() == 36
                    &&& req.url@ == spec_endpoint(self.host@, "chat.postMessage"@)
                    &&& fields_view(req.fields@) == seq![
                        ("token"@, self.xoxc@),
                        ("channel"@, channel@),
                        ("type"@, "message"@),
                        ("client_msg_id"@, id),
                    ] + message_fields(*blocks) + thread_fields(*thread_ts)
                    &&& req.file.is_none()
                },
    {
        let id = new_v4_string();
        let ghost idv = id@;
        self.chat_post_message_request(channel, thread_ts, blocks, id)
    }

    /// The request for the role assignments of `channel`.
    pub fn get_channel_manager(&self, channel: &ChannelId) -> (r: FormRequest)
        ensures
            r.url@ == spec_endpoint(self.host@, "admin.roles.entity.listAssignments"@),
            fields_view(r.fields@) == seq![("token"@, self.xoxc@), ("entity_id"@, channel@)],
            r.file.is_none(),
    {
        let mut f = self.get_base_form(TokenKind::Xoxc);
        push_field(&mut f, "entity_id", copy_string(&channel.0));
        assert(fields_view(f@) =~= seq![("token"@, self.xoxc@), ("entity_id"@, channel@)]);
        FormRequest { url: self.endpoint("admin.roles.entity.listAssignments"), fields: f, file: None }
    }

    /// The request that sets the posting preferences of `channel` to
    /// `prefs`, sent as JSON. Fails only where `prefs` cannot be written as
    /// JSON.
    pub fn update_channel_permission(&self, channel: &ChannelId, prefs: &Preference) -> (r: Result<
        FormRequest,
        ApiError,
    >)
        ensures
            r is Ok <==> (json_quoted(prefs.who_can_post@) is Some && json_quoted(
                prefs.can_thread@,
            ) is Some),
            r matches Err(e) ==> e is SerdeJsonSerializationError,
            r matches Ok(req) ==> {
                &&& req.url@ == spec_endpoint(self.host@, "channels.prefs.set"@)
                &&& fields_view(req.fields@) == seq![
                    ("token"@, self.xoxc@),
                    ("channel_id"@, channel@),
                    (
                        "prefs"@,
                        preference_json(
                            json_quoted(prefs.who_can_post@).unwrap(),
                            json_quoted(prefs.can_thread@).unwrap(),
                            prefs.enable_at_here,
                            prefs.enable_at_channel,
                        ),
                    ),
                ]
                &&& req.file.is_none()
            },
    {
        let json = match prefs.to_json() {
            Ok(j) => j,
            Err(e) => return Err(e),
        };
        let mut f = self.get_base_form(TokenKind::Xoxc);
        push_field(&mut f, "channel_id", copy_string(&channel.0));
        let ghost jv = json@;
        push_field(&mut f, "prefs", json);
        assert(fields_view(f@) =~= seq![
            ("token"@, self.xoxc@),
            ("channel_id"@, channel@),
            ("prefs"@, jv),
        ]);
        Ok(FormRequest { url: self.endpoint("channels.prefs.set"), fields: f, file: None })
    }

    /// The request that creates a channel named `name` in this workspace.
    pub fn conversation_create(&self, name: String, is_private: bool) -> (r: FormRequest)
        ensures
            r.url@ == spec_endpoint(self.host@, "conversations.create"@),
            fields_view(r.fields@) == seq![
                ("token"@, self.xoxc@),
                ("name"@, name@),
                ("team_id"@, self.team_id@),
                ("is_private"@, bool_text(is_private)),
            ],
            r.file.is_none(),
    {
        let mut f = self.get_base_form(TokenKind::Xoxc);
        push_field(&mut f, "name", name);
        push_field(&mut f, "team_id", copy_string(&self.team_id));
        push_field(&mut f, "is_private", bool_to_string(is_private));
        assert(fields_view(f@) =~= seq![
            ("token"@, self.xoxc@),
            ("name"@, name@),
            ("team_id"@, self.team_id@),
            ("is_private"@, bool_text(is_private)),
        ]);
        FormRequest { url: self.endpoint("conversations.create"), fields: f, file: None }
    }

    /// The request that adds `users` to, or removes them from (`action` is
    /// the verb of the API method), the managers of `channels`.
    pub fn change_channel_manager(
        &self,
        channels: &Vec<ChannelId>,
        users: &Vec<UserId>,
        action: &str,
    ) -> (r: FormRequest)
        ensures
            r.url@ == spec_endpoint(self.host@, "admin.roles."@ + action@ + "Members"@),
            fields_view(r.fields@) == seq![
                ("token"@, self.xoxc@),
                ("role_id"@, manager_role()),
                ("role_scopes"@, join(channel_texts(channels@), ","@)),
                ("user_ids"@, join(user_texts(users@), ","@)),
            ],
            r.file.is_none(),
    {
        let mut f = self.get_base_form(TokenKind::Xoxc);
        push_field(&mut f, "role_id", lit("Rl0A"));
        push_field(&mut f, "role_scopes", join_texts(&channel_id_strings(channels), ","));
        push_field(&mut f, "user_ids", join_texts(&user_id_strings(users), ","));
        assert(fields_view(f@) =~= seq![
            ("token"@, self.xoxc@),
            ("role_id"@, manager_role()),
            ("role_scopes"@, join(channel_texts(channels@), ","@)),
            ("user_ids"@, join(user_texts(users@), ","@)),
        ]);
        let mut method = lit("admin.roles.");
        push_str(&mut method, action);
        push_str(&mut method, "Members");
        FormRequest { url: self.endpoint(method.as_str()), fields: f, file: None }
    }

    /// The request that invites `users` to `channel`.
    pub fn add_user(&self, channel: &ChannelId, users: &Vec<UserId>) -> (r: FormRequest)
        ensures
            r.url@ == spec_endpoint(self.host@, "conversations.invite"@),
            fields_view(r.fields@) == seq![
                ("token"@, self.xoxc@),
                ("role_id"@, manager_role()),
                ("channel"@, channel@),
                ("users"@, join(user_texts(users@), ","@)),
                ("force"@, "true"@),
            ],
            r.file.is_none(),
    {
        let mut f = self.get_base_form(TokenKind::Xoxc);
        push_field(&mut f, "role_id", lit("Rl0A"));
        push_field(&mut f, "channel", copy_string(&channel.0));
        push_field(&mut f, "users", join_texts(&user_id_strings(users), ","));
        push_field(&mut f, "force", lit("true"));
        assert(fields_view(f@) =~= seq![
            ("token"@, self.xoxc@),
            ("role_id"@, manager_role()),
            ("channel"@, channel@),
            ("users"@, join(user_texts(users@), ","@)),
            ("force"@, "true"@),
        ]);
        FormRequest { url: self.endpoint("conversations.invite"), fields: f, file: None }
    }

    /// The request that removes `user` from `channel`.
    pub fn remove_user(&self, channel: &ChannelId, user: &UserId) -> (r: FormRequest)
        ensures
            r.url@ == spec_endpoint(self.host@, "conversations.kick"@),
            fields_view(r.fields@) == seq![
                ("token"@, self.xoxc@),
                ("role_id"@, manager_role()),
                ("channel"@, channel@),
                ("user"@, user@),
            ],
            r.file.is_none(),
    {
        let mut f = self.get_base_form(TokenKind::Xoxc);
        push_field(&mut f, "role_id", lit("Rl0A"));
        push_field(&mut f, "channel", copy_string(&channel.0));
        push_field(&mut f, "user", copy_string(&user.0));
        assert(fields_view(f@) =~= seq![
            ("token"@, self.xoxc@),
            ("role_id"@, manager_role()),
            ("channel"@, channel@),
            ("user"@, user@),
        ]);
        FormRequest { url: self.endpoint("conversations.kick"), fields: f, file: None }
    }

    /// The request that uploads the image at `path` as a profile photo.
    pub fn profile_prepare_photo(&self, path: String) -> (r: FormRequest)
        ensures
            r.url@ == spec_endpoint(self.host@, "users.preparePhoto"@),
            fields_view(r.fields@) == seq![("token"@, self.xoxc@)],
            r.file matches Some((name, p)) && name@ == "image"@ && p@ == path@,
    {
        let f = self.get_base_form(TokenKind::Xoxc);
        FormRequest {
            url: self.endpoint("users.preparePhoto"),
            fields: f,
            file: Some((lit("image"), path)),
        }
    }

    /// The request that makes the uploaded photo `id` the profile photo.
    pub fn profile_set_photo(&self, id: String) -> (r: FormRequest)
        ensures
            r.url@ == spec_endpoint(self.host@, "users.setPhoto"@),
            fields_view(r.fields@) == seq![("token"@, self.xoxc@), ("id"@, id@)],
            r.file.is_none(),
    {
        let mut f = self.get_base_form(TokenKind::Xoxc);
        push_field(&mut f, "id", id);
        assert(fields_view(f@) =~= seq![("token"@, self.xoxc@), ("id"@, id@)]);
        FormRequest { url: self.endpoint("users.setPhoto"), fields: f, file: None }
    }

    /// The request for what the API tells of `channel`.
    pub fn get_channel_info(&self, channel: &ChannelId) -> (r: FormRequest)
        ensures
            r.url@ == spec_endpoint(self.host@, "conversations.info"@),
            fields_view(r.fields@) == seq![("token"@, self.xoxc@), ("channel"@, channel@)],
            r.file.is_none(),
    {
        let mut f = self.get_base_form(TokenKind::Xoxc);
        push_field(&mut f, "channel", copy_string(&channel.0));
        assert(fields_view(f@) =~= seq![("token"@, self.xoxc@), ("channel"@, channel@)]);
        FormRequest { url: self.endpoint("conversations.info"), fields: f, file: None }
    }

    /// The request for a page of the members of `channel`: the first page,
    /// or the one at `cursor`.
    pub fn get_channel_members_page(&self, channel: &ChannelId, cursor: &Option<String>) -> (r:
        FormRequest)
        ensures
            r.url@ == spec_endpoint(self.host@, "conversations.members"@),
            fields_view(r.fields@) == seq![
                ("token"@, self.spec_token(TokenKind::SubXoxc)),
                ("channel"@, channel@),
            ] + match *cursor {
                Some(c) => seq![("cursor"@, c@)],
                None => Seq::empty(),
            },
            r.file.is_none(),
    {
        let mut f = self.get_base_form(TokenKind::SubXoxc);
        push_field(&mut f, "channel", copy_string(&channel.0));
        match cursor {
            Some(c) => {
                push_field(&mut f, "cursor", copy_string(c));
            },
            None => {},
        }
        assert(fields_view(f@) =~= seq![
            ("token"@, self.spec_token(TokenKind::SubXoxc)),
            ("channel"@, channel@),
        ] + match *cursor {
            Some(c) => seq![("cursor"@, c@)],
            None => Seq::<(Seq<char>, Seq<char>)>::empty(),
        });
        FormRequest { url: self.endpoint("conversations.members"), fields: f, file: None }
    }
}

} // verus!
