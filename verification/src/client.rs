//! What the bot knows of its session: its tokens, its workspace and
//! identity, the request builder, and the address to reconnect to.
use vstd::prelude::*;

use crate::api::APIClient;
use crate::ids::UserId;
use crate::text::copy_string;

verus! {

/// The session of the bot.
#[derive(Debug)]
pub struct ClientState {
    pub sub_xoxc_token: Option<String>,
    pub xoxc_token: String,
    pub xoxd_token: String,
    pub ws_reconnect_url: Option<String>,
    pub api_client: APIClient,
    pub host: String,
    pub team_id: String,
    pub user_id: UserId,
}

fn copy_opt_string(s: &Option<String>) -> (r: Option<String>)
    ensures
        crate::context::opt_view(r) == crate::context::opt_view(*s),
{
    match s {
        Some(t) => Some(copy_string(t)),
        None => None,
    }
}

impl ClientState {
    /// A new session: no reconnection address yet, and a request builder
    /// for the same tokens, host and workspace.
    pub fn new(
        sub_xoxc: Option<String>,
        xoxc: String,
        xoxd: String,
        host: String,
        team_id: String,
        user_id: UserId,
    ) -> (r: ClientState)
        ensures
            r.sub_xoxc_token == sub_xoxc,
            r.xoxc_token == xoxc,
            r.xoxd_token == xoxd,
            r.ws_reconnect_url.is_none(),
            r.host == host,
            r.team_id == team_id,
            r.user_id == user_id,
            crate::context::opt_view(r.api_client.sub_xoxc) == crate::context::opt_view(sub_xoxc),
            r.api_client.xoxc@ == xoxc@,
            r.api_client.xoxd@ == xoxd@,
            r.api_client.host@ == host@,
            r.api_client.team_id@ == team_id@,
    {
        let api_client = APIClient::new(
            copy_opt_string(&sub_xoxc),
            copy_string(&xoxc),
            copy_string(&xoxd),
            copy_string(&host),
            copy_string(&team_id),
        );
        ClientState {
            sub_xoxc_token: sub_xoxc,
            xoxc_token: xoxc,
            xoxd_token: xoxd,
            ws_reconnect_url: None,
            api_client,
            host,
            team_id,
            user_id,
        }
    }

    /// The main token.
    pub fn get_xoxc(&self) -> (r: String)
        ensures
            r@ == self.xoxc_token@,
    {
        copy_string(&self.xoxc_token)
    }

    /// The session cookie's token.
    pub fn get_xoxd(&self) -> (r: String)
        ensures
            r@ == self.xoxd_token@,
    {
        copy_string(&self.xoxd_token)
    }

    /// Where the next connection goes, when the server has named a place.
    pub fn get_ws_connecting_url(&self) -> (r: Option<String>)
        ensures
            crate::context::opt_view(r) == crate::context::opt_view(self.ws_reconnect_url),
    {
        copy_opt_string(&self.ws_reconnect_url)
    }

    /// Records the address that the server names for the next connection;
    /// nothing else changes.
    pub fn change_ws_connecting_url(&mut self, url: String)
        ensures
            final(self).ws_reconnect_url == Some(url),
            final(self).sub_xoxc_token == old(self).sub_xoxc_token,
            final(self).xoxc_token == old(self).xoxc_token,
            final(self).xoxd_token == old(self).xoxd_token,
            final(self).api_client == old(self).api_client,
            final(self).host == old(self).host,
            final(self).team_id == old(self).team_id,
            final(self).user_id == old(self).user_id,
    {
        self.ws_reconnect_url = Some(url);
    }
}

} // verus!
