//! The questions and answers that travel between clients and the registry.

use crate::client::{opt_text, ClientInfo, ClientInfoView};
use vstd::prelude::*;
use vstd::string::*;

verus! {

/// Why a request was not served.
#[derive(Clone, Copy, Debug, PartialEq, Eq, Structural)]
pub enum ResponseMessage {
    NotFound,
    AlreadyOccupiedId,
    InvalidPassword,
    DatabaseError,
}

/// A lookup: the account asked for and, optionally, its password in
/// plaintext.
#[derive(Debug)]
pub struct GetClientInfoParams {
    pub account: String,
    pub passwd: Option<String>,
}

/// The answer to a lookup.
#[derive(Debug)]
pub struct GetClientInfoResponse {
    id: Option<u128>,
    account: String,
    passwd: Option<String>,
    is_ok: bool,
    message: Option<ResponseMessage>,
    data: Option<ClientInfo>,
}

/// The mathematical value of a [`GetClientInfoResponse`].
pub struct GetClientInfoResponseView {
    pub id: Option<u128>,
    pub account: Seq<char>,
    pub passwd: Option<Seq<char>>,
    pub is_ok: bool,
    pub message: Option<ResponseMessage>,
    pub data: Option<ClientInfoView>,
}

/// The value of an optional record.
pub open spec fn opt_info(info: Option<ClientInfo>) -> Option<ClientInfoView> {
    match info {
        Some(i) => Some(i@),
        None => None,
    }
}

impl View for GetClientInfoResponse {
    type V = GetClientInfoResponseView;

    closed spec fn view(&self) -> GetClientInfoResponseView {
        GetClientInfoResponseView {
            id: self.id,
            account: self.account@,
            passwd: opt_text(self.passwd),
            is_ok: self.is_ok,
            message: self.message,
            data: opt_info(self.data),
        }
    }
}

impl GetClientInfoResponse {
    /// An answer that is not ok yet and carries neither message nor data.
    pub fn new(id: Option<u128>, account: &str, passwd: Option<String>) -> (resp: Self)
        ensures
            resp@ == (GetClientInfoResponseView {
                id,
                account: account@,
                passwd: opt_text(passwd),
                is_ok: false,
                message: None,
                data: None,
            }),
    {
        Self { id, account: account.to_owned(), passwd, is_ok: false, message: None, data: None }
    }

    pub fn set_ok(self, is_ok: bool) -> (resp: Self)
        ensures
            resp@ == (GetClientInfoResponseView { is_ok, ..self@ }),
    {
        let mut resp = self;
        resp.is_ok = is_ok;
        resp
    }

    pub fn set_message(self, message: Option<ResponseMessage>) -> (resp: Self)
        ensures
            resp@ == (GetClientInfoResponseView { message, ..self@ }),
    {
        let mut resp = self;
        resp.message = message;
        resp
    }

    pub fn set_id(self, id: Option<u128>) -> (resp: Self)
        ensures
            resp@ == (GetClientInfoResponseView { id, ..self@ }),
    {
        let mut resp = self;
        resp.id = id;
        resp
    }

    pub fn set_data(self, data: ClientInfo) -> (resp: Self)
        ensures
            resp@ == (GetClientInfoResponseView { data: Some(data@), ..self@ }),
    {
        let mut resp = self;
        resp.data = Some(data);
        resp
    }

    pub fn id(&self) -> (id: Option<u128>)
        ensures
            id == self@.id,
    {
        self.id
    }

    pub fn account(&self) -> (account: &String)
        ensures
            account@ == self@.account,
    {
        &self.account
    }

    pub fn passwd(&self) -> (passwd: &Option<String>)
        ensures
            opt_text(*passwd) == self@.passwd,
    {
        &self.passwd
    }

    pub fn is_ok(&self) -> (is_ok: bool)
        ensures
            is_ok == self@.is_ok,
    {
        self.is_ok
    }

    pub fn message(&self) -> (message: Option<ResponseMessage>)
        ensures
            message == self@.message,
    {
        self.message
    }

    pub fn data(&self) -> (data: &Option<ClientInfo>)
        ensures
            opt_info(*data) == self@.data,
    {
        &self.data
    }
}

/// The answer to a registration.
#[derive(Debug)]
pub struct PostClientInfoResponse {
    id: u128,
    account: String,
    passwd: Option<String>,
    is_ok: bool,
    message: Option<ResponseMessage>,
    lifetime: u64,
}

/// The mathematical value of a [`PostClientInfoResponse`].
pub struct PostClientInfoResponseView {
    pub id: u128,
    pub account: Seq<char>,
    pub passwd: Option<Seq<char>>,
    pub is_ok: bool,
    pub message: Option<ResponseMessage>,
    pub lifetime: u64,
}

impl View for PostClientInfoResponse {
    type V = PostClientInfoResponseView;

    closed spec fn view(&self) -> PostClientInfoResponseView {
        PostClientInfoResponseView {
            id: self.id,
            account: self.account@,
            passwd: opt_text(self.passwd),
            is_ok: self.is_ok,
            message: self.message,
            lifetime: self.lifetime,
        }
    }
}

impl PostClientInfoResponse {
    /// An answer that is not ok yet, carries no message and grants no
    /// lifetime.
    pub fn new(id: u128, account: &str, passwd: Option<String>) -> (resp: Self)
        ensures
            resp@ == (PostClientInfoResponseView {
                id,
                account: account@,
                passwd: opt_text(passwd),
                is_ok: false,
                message: None,
                lifetime: 0,
            }),
    {
        Self { id, account: account.to_owned(), passwd, is_ok: false, message: None, lifetime: 0 }
    }

    pub fn set_ok(self, is_ok: bool) -> (resp: Self)
        ensures
            resp@ == (PostClientInfoResponseView { is_ok, ..self@ }),
    {
        let mut resp = self;
        resp.is_ok = is_ok;
        resp
    }

    pub fn set_message(self, message: Option<ResponseMessage>) -> (resp: Self)
        ensures
            resp@ == (PostClientInfoResponseView { message, ..self@ }),
    {
        let mut resp = self;
        resp.message = message;
        resp
    }

    pub fn set_lifetime(self, lifetime: u64) -> (resp: Self)
        ensures
            resp@ == (PostClientInfoResponseView { lifetime, ..self@ }),
    {
        let mut resp = self;
        resp.lifetime = lifetime;
        resp
    }

    /// The seconds for which the registration holds.
    pub fn lifetime(&self) -> (lifetime: u64)
        ensures
            lifetime == self@.lifetime,
    {
        self.lifetime
    }

    pub fn id(&self) -> (id: u128)
        ensures
            id == self@.id,
    {
        self.id
    }

    pub fn account(&self) -> (account: &String)
        ensures
            account@ == self@.account,
    {
        &self.account
    }

    pub fn passwd(&self) -> (passwd: &Option<String>)
        ensures
            opt_text(*passwd) == self@.passwd,
    {
        &self.passwd
    }

    pub fn is_ok(&self) -> (is_ok: bool)
        ensures
            is_ok == self@.is_ok,
    {
        self.is_ok
    }

    pub fn message(&self) -> (message: Option<ResponseMessage>)
        ensures
            message == self@.message,
    {
        self.message
    }
}

} // verus!
