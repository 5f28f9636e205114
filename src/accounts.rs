//! The account store: exact-match lookup by email, mobile number or
//! identifier, creation that keeps contacts unique, and password update.
use vstd::prelude::*;
use crate::error::{Error, ErrorEnum};
use crate::model::{Account, UserModel, copy_text};
use crate::text::{padded_decimal, padded_digits, pow10, lemma_padded_injective, lemma_u64_below_pow10_24};

verus! {

/// Width of an account identifier, in decimal digits.
pub const ID_WIDTH: usize = 24;

/// `a` passes every filter that is given; absent filters pass everything.
pub open spec fn passes_filters(
    a: Account,
    email: Option<Seq<char>>,
    mobile: Option<Seq<char>>,
    id: Option<Seq<char>>,
) -> bool {
    &&& (email is Some ==> a.email == email)
    &&& (mobile is Some ==> a.mobile_number == mobile)
    &&& (id is Some ==> a.id == id)
}

/// `a` already holds the email or the mobile number of `u`.
pub open spec fn conflicts(a: Account, u: Account) -> bool {
    ||| (u.email is Some && a.email == u.email)
    ||| (u.mobile_number is Some && a.mobile_number == u.mobile_number)
}

/// `u` is the first account of `s` that passes the filters.
pub open spec fn first_match(
    s: Seq<Account>,
    u: Account,
    email: Option<Seq<char>>,
    mobile: Option<Seq<char>>,
    id: Option<Seq<char>>,
) -> bool {
    exists|j: int|
        0 <= j < s.len() && s[j] == u && passes_filters(s[j], email, mobile, id) && forall|j2: int|
            0 <= j2 < j ==> !passes_filters(#[trigger] s[j2], email, mobile, id)
}

/// `c` is the first account of `s` that holds the email or the mobile
/// number of `u`.
pub open spec fn first_conflict(s: Seq<Account>, u: Account, c: Account) -> bool {
    exists|j: int|
        0 <= j < s.len() && s[j] == c && conflicts(s[j], u) && forall|j2: int|
            0 <= j2 < j ==> !conflicts(#[trigger] s[j2], u)
}

/// An in-memory document store of accounts.
#[derive(Debug, Clone)]
pub struct MongoDB {
    users: Vec<UserModel>,
    next_id: u64,
}

impl MongoDB {
    /// The stored accounts, in order of creation.
    pub closed spec fn accounts(&self) -> Seq<Account> {
        Seq::new(self.users@.len(), |i: int| self.users@[i]@)
    }

    /// The number that the next created account's identifier is made of.
    pub closed spec fn counter(&self) -> u64 {
        self.next_id
    }

    /// The `i`-th account created has identifier `padded_digits(i, 24)`, so
    /// identifiers are unique; every account has an email or a mobile
    /// number, and no two accounts share an email or a mobile number.
    pub open spec fn wf(&self) -> bool {
        let s = self.accounts();
        &&& self.counter() as int == s.len()
        &&& forall|i: int| 0 <= i < s.len() ==> (#[trigger] s[i]).id == Some(padded_digits(i as nat, ID_WIDTH as nat))
        &&& forall|i: int, j: int|
            0 <= i < s.len() && 0 <= j < s.len() && i != j ==> (#[trigger] s[i]).id != (#[trigger] s[j]).id
        &&& forall|i: int|
            0 <= i < s.len() ==> (#[trigger] s[i]).email is Some || s[i].mobile_number is Some
        &&& forall|i: int, j: int|
            0 <= i < s.len() && 0 <= j < s.len() && i != j ==> !conflicts(#[trigger] s[i], #[trigger] s[j])
    }

    /// The number that the next created account's identifier is made of.
    pub fn id_counter(&self) -> (r: u64)
        ensures
            r == self.counter(),
    {
        self.next_id
    }

    /// An empty store.
    pub fn new() -> (r: MongoDB)
        ensures
            r.wf(),
            r.accounts().len() == 0,
            r.counter() == 0,
    {
        let r = MongoDB { users: Vec::new(), next_id: 0 };
        assert(r.accounts() =~= Seq::empty());
        r
    }

    /// The first account that passes every given filter; the filters are
    /// combined with "and".
    pub fn find_user(
        &self,
        email: &Option<String>,
        mobile: &Option<String>,
        id: &Option<String>,
    ) -> (r: Option<UserModel>)
        ensures
            r is None <==> forall|j: int|
                0 <= j < self.accounts().len() ==> !passes_filters(
                    #[trigger] self.accounts()[j],
                    email.deep_view(),
                    mobile.deep_view(),
                    id.deep_view(),
                ),
            r matches Some(u) ==> first_match(
                self.accounts(),
                u@,
                email.deep_view(),
                mobile.deep_view(),
                id.deep_view(),
            ),
    {
        let ghost s = self.accounts();
        let mut j: usize = 0;
        while j < self.users.len()
            invariant
                j <= self.users.len(),
                s == self.accounts(),
                forall|j2: int|
                    0 <= j2 < j ==> !passes_filters(
                        #[trigger] s[j2],
                        email.deep_view(),
                        mobile.deep_view(),
                        id.deep_view(),
                    ),
            decreases self.users.len() - j,
        {
            let u = &self.users[j];
            let ok_email = match email {
                Some(e) => match &u.email {
                    Some(x) => *x == *e,
                    None => false,
                },
                None => true,
            };
            let ok_mobile = match mobile {
                Some(e) => match &u.mobile_number {
                    Some(x) => *x == *e,
                    None => false,
                },
                None => true,
            };
            let ok_id = match id {
                Some(e) => match &u.id {
                    Some(x) => *x == *e,
                    None => false,
                },
                None => true,
            };
            assert(s[j as int] == u@);
            if ok_email && ok_mobile && ok_id {
                let r = u.duplicate();
                assert(passes_filters(s[j as int], email.deep_view(), mobile.deep_view(), id.deep_view()));
                return Some(r);
            }
            j = j + 1;
        }
        None
    }

    /// The first account that holds the email or the mobile number of `u`.
    pub fn find_conflict(&self, u: &UserModel) -> (r: Option<UserModel>)
        ensures
            r is None <==> forall|j: int|
                0 <= j < self.accounts().len() ==> !conflicts(#[trigger] self.accounts()[j], u@),
            r matches Some(c) ==> first_conflict(self.accounts(), u@, c@),
    {
        let ghost s = self.accounts();
        let mut j: usize = 0;
        while j < self.users.len()
            invariant
                j <= self.users.len(),
                s == self.accounts(),
                forall|j2: int| 0 <= j2 < j ==> !conflicts(#[trigger] s[j2], u@),
            decreases self.users.len() - j,
        {
            let a = &self.users[j];
            let same_email = match (&u.email, &a.email) {
                (Some(x), Some(y)) => *x == *y,
                _ => false,
            };
            let same_mobile = match (&u.mobile_number, &a.mobile_number) {
                (Some(x), Some(y)) => *x == *y,
                _ => false,
            };
            assert(s[j as int] == a@);
            if same_email || same_mobile {
                return Some(a.duplicate());
            }
            j = j + 1;
        }
        None
    }

    /// Stores `user` under a fresh identifier and returns the identifier.
    /// An account with neither email nor mobile number is refused with
    /// `EmailMobileEmpty`; an account that already holds its email or mobile
    /// number is reported as `UserAlreadyExists`. On refusal nothing is
    /// stored.
    pub fn create_user(&mut self, user: UserModel) -> (r: Result<String, Error>)
        requires
            old(self).wf(),
            old(self).counter() < u64::MAX,
        ensures
            final(self).wf(),
            user@.email is None && user@.mobile_number is None ==> r matches Err(
                Error::DefinedError(ErrorEnum::EmailMobileEmpty),
            ),
            !(user@.email is None && user@.mobile_number is None) ==> ((exists|j: int|
                0 <= j < old(self).accounts().len() && conflicts(old(self).accounts()[j], user@))
                <==> r is Err),
            !(user@.email is None && user@.mobile_number is None) && r is Err ==> (r matches Err(
                Error::DefinedError(ErrorEnum::UserAlreadyExists(x)),
            ) && first_conflict(old(self).accounts(), user@, x@)),
            r is Err ==> *final(self) == *old(self),
            r matches Ok(id) ==> {
                &&& id@ == padded_digits(old(self).counter() as nat, ID_WIDTH as nat)
                &&& final(self).counter() == old(self).counter() + 1
                &&& final(self).accounts() == old(self).accounts().push(
                    Account { id: Some(id@), ..user@ },
                )
            },
    {
        if user.email.is_none() && user.mobile_number.is_none() {
            return Err(Error::DefinedError(ErrorEnum::EmailMobileEmpty));
        }
        match self.find_conflict(&user) {
            Some(existing) => {
                return Err(Error::DefinedError(ErrorEnum::UserAlreadyExists(existing)));
            },
            None => {},
        }
        let id = padded_decimal(self.next_id, ID_WIDTH);
        let stored = UserModel {
            id: Some(id.clone()),
            email: user.email,
            mobile_number: user.mobile_number,
            password: user.password,
            roles: user.roles,
        };
        let ghost before = self.accounts();
        let ghost n = before.len();
        proof {
            assert forall|i: int| 0 <= i < n implies before[i].id != Some(id@) by {
                lemma_u64_below_pow10_24(self.next_id);
                assert((i as nat) < pow10(24)) by {
                    lemma_u64_below_pow10_24(i as u64);
                }
                if before[i].id == Some(id@) {
                    lemma_padded_injective(i as nat, self.next_id as nat, ID_WIDTH as nat);
                }
            }
        }
        self.users.push(stored);
        self.next_id = self.next_id + 1;
        assert(self.accounts() =~= before.push(Account { id: Some(id@), ..user@ }));
        Ok(id)
    }

    /// Replaces the password hash of the account with identifier `user_id`
    /// and returns that account as it was before.
    pub fn update_password(&mut self, user_id: &String, password: String) -> (r: Option<UserModel>)
        requires
            old(self).wf(),
        ensures
            final(self).wf(),
            final(self).counter() == old(self).counter(),
            final(self).accounts().len() == old(self).accounts().len(),
            r is None <==> forall|j: int|
                0 <= j < old(self).accounts().len() ==> old(self).accounts()[j].id != Some(user_id@),
            r is None ==> *final(self) == *old(self),
            r matches Some(u) ==> exists|j: int|
                0 <= j < old(self).accounts().len() && old(self).accounts()[j] == u@ && u@.id == Some(
                    user_id@,
                ) && (forall|j2: int| 0 <= j2 < j ==> (#[trigger] old(self).accounts()[j2]).id != Some(user_id@))
                && final(self).accounts() == old(self).accounts().update(
                    j,
                    Account { password: Some(password@), ..u@ },
                ),
    {
        let ghost s = self.accounts();
        let mut j: usize = 0;
        while j < self.users.len()
            invariant
                j <= self.users.len(),
                *self == *old(self),
                s == self.accounts(),
                s == old(self).accounts(),
                old(self).wf(),
                forall|j2: int| 0 <= j2 < j ==> (#[trigger] s[j2]).id != Some(user_id@),
            decreases self.users.len() - j,
        {
            let found = match &self.users[j].id {
                Some(x) => *x == *user_id,
                None => false,
            };
            assert(s[j as int] == self.users@[j as int]@);
            if found {
                let before = self.users[j].duplicate();
                let updated = UserModel {
                    id: copy_text(&before.id),
                    email: copy_text(&before.email),
                    mobile_number: copy_text(&before.mobile_number),
                    password: Some(password),
                    roles: crate::model::copy_texts(&before.roles),
                };
                self.users.set(j, updated);
                assert(self.accounts() =~= s.update(
                    j as int,
                    Account { password: Some(password@), ..before@ },
                ));
                assert forall|i: int| 0 <= i < s.len() implies (#[trigger] self.accounts()[i]).email
                    == s[i].email && self.accounts()[i].mobile_number == s[i].mobile_number
                    && self.accounts()[i].id == s[i].id by {}
                return Some(before);
            }
            j = j + 1;
        }
        None
    }
}

} // verus!
