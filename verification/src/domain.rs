//! Accounts, repositories and the other plain values that the modules share.

use vstd::prelude::*;
use vstd::string::*;

use crate::text;

verus! {

/// A login on a host.
#[derive(Debug, PartialEq, Eq)]
pub struct Account {
    pub host: String,
    pub login: String,
}

#[verifier::ext_equal]
pub struct AccountView {
    pub host: Seq<char>,
    pub login: Seq<char>,
}

impl View for Account {
    type V = AccountView;

    open spec fn view(&self) -> AccountView {
        AccountView {
            host: self.host@,
            login: self.login@,
        }
    }
}

impl Clone for Account {
    fn clone(&self) -> (r: Self)
        ensures
            r == *self,
    {
        Account {
            host: self.host.clone(),
            login: self.login.clone(),
        }
    }
}

impl Account {
    /// Whether two values agree in every field.
    pub fn same(&self, other: &Self) -> (r: bool)
        ensures
            r == (self@ == other@),
    {
        self.host == other.host
            && self.login == other.login
    }
}

/// A repository as one account sees it.
#[derive(Debug, PartialEq, Eq)]
pub struct Repository {
    pub host: String,
    pub owner: String,
    pub name: String,
    pub account: Account,
    pub local_path: Option<String>,
}

#[verifier::ext_equal]
pub struct RepositoryView {
    pub host: Seq<char>,
    pub owner: Seq<char>,
    pub name: Seq<char>,
    pub account: AccountView,
    pub local_path: Option<Seq<char>>,
}

impl View for Repository {
    type V = RepositoryView;

    open spec fn view(&self) -> RepositoryView {
        RepositoryView {
            host: self.host@,
            owner: self.owner@,
            name: self.name@,
            account: self.account@,
            local_path: text::option_text(self.local_path),
        }
    }
}

impl Clone for Repository {
    fn clone(&self) -> (r: Self)
        ensures
            r == *self,
    {
        Repository {
            host: self.host.clone(),
            owner: self.owner.clone(),
            name: self.name.clone(),
            account: self.account.clone(),
            local_path: self.local_path.clone(),
        }
    }
}

impl Repository {
    /// Whether two values agree in every field.
    pub fn same(&self, other: &Self) -> (r: bool)
        ensures
            r == (self@ == other@),
    {
        self.host == other.host
            && self.owner == other.owner
            && self.name == other.name
            && self.account.same(&other.account)
            && text::same_option_text(&self.local_path, &other.local_path)
    }
}

/// `owner/name`.
pub open spec fn full_name_of(owner: Seq<char>, name: Seq<char>) -> Seq<char> {
    owner + "/"@ + name
}

/// The text that identifies a repository together with the account it is read with. Hosts,
/// owners, names and logins are compared without regard to case. The form of the text is this
/// library's own: a store that keys its repositories otherwise orders them otherwise.
pub open spec fn cache_key_of(r: RepositoryView) -> Seq<char> {
    text::lower(
        r.account.host + "/"@ + r.account.login + ":"@ + r.host + "/"@ + r.owner + "/"@ + r.name,
    )
}

impl Repository {
    pub fn full_name(&self) -> (r: String)
        ensures
            r@ == full_name_of(self.owner@, self.name@),
    {
        let mut out: String = self.owner.clone();
        out.append("/");
        out.append(&self.name);
        out
    }

    pub fn cache_key(&self) -> (r: String)
        ensures
            r@ == cache_key_of(self@),
    {
        let mut out: String = self.account.host.clone();
        out.append("/");
        out.append(&self.account.login);
        out.append(":");
        out.append(&self.host);
        out.append("/");
        out.append(&self.owner);
        out.append("/");
        out.append(&self.name);
        text::to_lower(&out)
    }
}

pub open spec fn optional_repository(x: Option<Repository>) -> Option<RepositoryView> {
    match x {
        Some(v) => Some(v@),
        None => None,
    }
}

pub fn same_optional_repository(a: &Option<Repository>, b: &Option<Repository>) -> (r: bool)
    ensures
        r == (optional_repository(*a) == optional_repository(*b)),
{
    match (a, b) {
        (Some(x), Some(y)) => x.same(y),
        (None, None) => true,
        _ => false,
    }
}

} // verus!
