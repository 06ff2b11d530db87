//! Frontend session ownership: the last frontend to connect owns the session
//! and only its token may drive the game.

use vstd::prelude::*;
use vstd::string::StringExecFns;
use crate::text::{decimal, lemma_decimal_injective, u64_to_decimal, string_from_chars};

verus! {

/// The frontend that currently holds session authority.
#[derive(Debug, Clone)]
pub struct SessionOwner {
    pub token: String,
    pub label: String,
}

/// Who owns the session, and the counter that numbers client tokens.
#[derive(Debug)]
pub struct SessionAuthority {
    pub client_owner: Option<SessionOwner>,
    pub next_client_id: u64,
}

/// The token handed to the `id`-th client: `client-<id>`.
pub open spec fn client_token(id: nat) -> Seq<char> {
    "client-"@ + decimal(id)
}

/// The owner's token, if any.
pub open spec fn owner_token(s: SessionAuthority) -> Option<Seq<char>> {
    match s.client_owner {
        Some(o) => Some(o.token@),
        None => None,
    }
}

/// Whether `token` may drive the session.
pub open spec fn accepts(s: SessionAuthority, token: Seq<char>) -> bool {
    owner_token(s) == Some(token)
}

/// The message for a request made while no frontend is connected.
pub open spec fn no_owner_message() -> Seq<char> {
    "当前没有已连接的前端 owner，请先调用 frontend_connected"@
}

/// The message for a request from a client that is not the owner.
pub open spec fn not_owner_message(label: Seq<char>) -> Seq<char> {
    "当前会话已被其他客户端接管（owner="@ + label + "），拒绝推进请求"@
}

impl SessionAuthority {
    /// No owner yet; the first client will be number 1.
    pub fn new() -> (r: Self)
        ensures
            r.client_owner is None,
            r.next_client_id == 0,
    {
        SessionAuthority { client_owner: None, next_client_id: 0 }
    }

    /// A new frontend claims the session: it gets the next token and becomes
    /// the owner, under its label (`frontend` when none is given).
    pub fn frontend_connected(&mut self, label: Option<String>) -> (token: String)
        requires
            old(self).next_client_id < u64::MAX,
        ensures
            final(self).next_client_id == old(self).next_client_id + 1,
            token@ == client_token(final(self).next_client_id as nat),
            final(self).client_owner is Some,
            final(self).client_owner->0.token@ == token@,
            final(self).client_owner->0.label@ == match label {
                Some(l) => l@,
                None => "frontend"@,
            },
    {
        self.next_client_id = self.next_client_id + 1;
        let digits = u64_to_decimal(self.next_client_id);
        let number = string_from_chars(&digits);
        let mut token = "client-".to_owned();
        token.append(number.as_str());
        let label = match label {
            Some(l) => l,
            None => "frontend".to_owned(),
        };
        let owner_token = token.clone();
        self.client_owner = Some(SessionOwner { token: owner_token, label });
        token
    }

    /// Accepts a request only from the current owner's token.
    pub fn assert_owner(&self, client_token: &str) -> (r: Result<(), String>)
        ensures
            r is Ok <==> accepts(*self, client_token@),
            self.client_owner is None ==> r is Err && r->Err_0@ == no_owner_message(),
            match self.client_owner {
                Some(o) => o.token@ != client_token@ ==> r is Err && r->Err_0@
                    == not_owner_message(o.label@),
                None => true,
            },
    {
        match &self.client_owner {
            None => Err("当前没有已连接的前端 owner，请先调用 frontend_connected".to_owned()),
            Some(owner) => {
                let t = owner.token.as_str();
                if crate::text::chars_equal_str(&crate::text::to_chars(t), client_token) {
                    Ok(())
                } else {
                    let mut msg = "当前会话已被其他客户端接管（owner=".to_owned();
                    msg.append(owner.label.as_str());
                    msg.append("），拒绝推进请求");
                    Err(msg)
                }
            },
        }
    }
}

/// Distinct clients get distinct tokens.
pub proof fn lemma_client_tokens_distinct(a: nat, b: nat)
    requires
        a != b,
    ensures
        client_token(a) != client_token(b),
{
    if client_token(a) == client_token(b) {
        let p = "client-"@;
        assert(decimal(a) =~= client_token(a).skip(p.len() as int));
        assert(decimal(b) =~= client_token(b).skip(p.len() as int));
        lemma_decimal_injective(a, b);
    }
}

/// Once a second frontend connects, the first frontend's token is refused
/// while the newcomer's is accepted: a reclaim invalidates the stale token.
pub proof fn lemma_reclaim_invalidates_stale_token(
    before: SessionAuthority,
    first: SessionAuthority,
    second: SessionAuthority,
)
    requires
        first.next_client_id == before.next_client_id + 1,
        accepts(first, client_token(first.next_client_id as nat)),
        second.next_client_id == first.next_client_id + 1,
        owner_token(second) == Some(client_token(second.next_client_id as nat)),
    ensures
        !accepts(second, client_token(first.next_client_id as nat)),
        accepts(second, client_token(second.next_client_id as nat)),
{
    lemma_client_tokens_distinct(first.next_client_id as nat, second.next_client_id as nat);
}

} // verus!
